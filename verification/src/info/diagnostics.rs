//! Diagnostics of colour metadata: one stream, and totals over many.

use super::color::{
    doubts, ColorDoubt, ColorSpace, DetectedColorInterpretation, VideoColorDetectionMethod,
    VideoColorInterpretationConfidence, VideoColorInterpretationWarning, VideoColorMetadata,
    VideoColorMetadataHint, VideoColorSpaceSource,
};
use super::hdr::{any_of_kind, has_kind, VideoHdrMetadataSummary, VideoHdrSideDataKind};
use vstd::prelude::*;
use vstd::string::*;

verus! {

/// Quantization range of encoded samples.
#[derive(Debug, Clone, Copy, PartialEq, Eq, Hash, Structural)]
pub enum DecodedVideoRange {
    Unknown,
    Limited,
    Full,
}

/// What is known of the colour of a stream.
#[derive(Debug, Clone, PartialEq, Eq)]
pub struct VideoColorDiagnostic {
    /// Encoded quantization range.
    pub color_range: DecodedVideoRange,
    /// The sole identity from metadata that may drive pixels.
    pub executable: Option<ColorSpace>,
    /// What was made of the metadata.
    pub interpretation: DetectedColorInterpretation,
    /// Raw tags, where a decoder could be opened.
    pub metadata: Option<VideoColorMetadata>,
    /// Hints that were found.
    pub metadata_hints: Vec<VideoColorMetadataHint>,
    /// Side data that bears on HDR.
    pub hdr_metadata: Vec<VideoHdrMetadataSummary>,
}

/// Kinds of doubts that are counted.
pub enum DoubtKind {
    MultipleMetadataHints,
    MetadataHintOverridesCicpTags,
    LowerPriorityMetadataHints,
    PartialCicpTags,
    MissingCicpTags,
    UnsupportedCicpTags,
    DecoderUnavailable,
    IccCicpMismatch,
    IccProfileUnmapped,
}

/// Whether a doubt is of a kind.
pub open spec fn is_of_kind(doubt: ColorDoubt, kind: DoubtKind) -> bool {
    match kind {
        DoubtKind::MultipleMetadataHints => doubt is MultipleMetadataHints,
        DoubtKind::MetadataHintOverridesCicpTags => doubt is MetadataHintOverridesCicpTags,
        DoubtKind::LowerPriorityMetadataHints => doubt is LowerPriorityMetadataHints,
        DoubtKind::PartialCicpTags => doubt is PartialCicpTags,
        DoubtKind::MissingCicpTags => doubt is MissingCicpTags,
        DoubtKind::UnsupportedCicpTags => doubt is UnsupportedCicpTags,
        DoubtKind::DecoderUnavailable => doubt is DecoderUnavailable,
        DoubtKind::IccCicpMismatch => doubt is IccCicpMismatch,
        DoubtKind::IccProfileUnmapped => doubt is IccProfileUnmapped,
    }
}

/// Number of doubts of a kind.
pub open spec fn count_of(list: Seq<ColorDoubt>, kind: DoubtKind) -> nat
    decreases list.len(),
{
    if list.len() == 0 {
        0
    } else {
        count_of(list.drop_last(), kind) + bit(is_of_kind(list.last(), kind))
    }
}

/// Number of hints that doubts of a kind pass over.
pub open spec fn ignored_by(list: Seq<ColorDoubt>, kind: DoubtKind) -> nat
    decreases list.len(),
{
    if list.len() == 0 {
        0
    } else {
        ignored_by(list.drop_last(), kind) + (match (list.last(), kind) {
            (
                ColorDoubt::MultipleMetadataHints { ignored, .. },
                DoubtKind::MultipleMetadataHints,
            ) => ignored.len(),
            (
                ColorDoubt::LowerPriorityMetadataHints { ignored, .. },
                DoubtKind::LowerPriorityMetadataHints,
            ) => ignored.len(),
            _ => 0,
        })
    }
}

/// One where the condition holds, else zero.
pub open spec fn bit(condition: bool) -> nat {
    if condition {
        1
    } else {
        0
    }
}

/// A count, held at the largest value of its type.
pub open spec fn capped(n: nat) -> u64 {
    if n > u64::MAX {
        u64::MAX
    } else {
        n as u64
    }
}

/// A sum, held at the largest value of its type.
pub open spec fn capped_sum(a: u64, b: nat) -> u64 {
    capped((a + b) as nat)
}

fn flag(condition: bool) -> (r: u64)
    ensures
        r == bit(condition),
{
    if condition {
        1
    } else {
        0
    }
}

/// Issues of the colour metadata of one stream.
#[derive(Debug, Clone, Copy, PartialEq, Eq, Structural)]
pub struct VideoColorDiagnosticIssueSummary {
    /// Executable metadata identity, excluding diagnostic-only suggestions.
    pub executable_color_space: Option<ColorSpace>,
    /// Confidence of the automatic interpretation.
    pub confidence: VideoColorInterpretationConfidence,
    /// Source state for the color metadata decision.
    pub source: VideoColorSpaceSource,
    /// Method that produced the color metadata decision.
    pub method: VideoColorDetectionMethod,
    /// Whether raw CICP/FFmpeg metadata was captured.
    pub has_raw_cicp_metadata: bool,
    /// Number of metadata hints captured from container and stream metadata.
    pub metadata_hint_count: u64,
    /// Number of interpretation evidence records.
    pub evidence_count: u64,
    /// Number of interpretation warnings.
    pub warning_count: u64,
    /// Number of multiple-hint ambiguity warnings.
    pub multiple_metadata_hints: u64,
    /// Number of ignored metadata hints across multiple-hint warnings.
    pub ignored_metadata_hints: u64,
    /// Number of warnings where a metadata hint overrode conflicting CICP tags.
    pub metadata_hint_overrides_cicp_tags: u64,
    /// Number of warnings where stronger evidence overrode free-form metadata hints.
    pub lower_priority_metadata_hints: u64,
    /// Number of lower-priority metadata hints retained but not selected.
    pub ignored_lower_priority_metadata_hints: u64,
    /// Number of partial CICP inference warnings.
    pub partial_cicp_tags: u64,
    /// Number of missing CICP warnings.
    pub missing_cicp_tags: u64,
    /// Number of unsupported CICP warnings.
    pub unsupported_cicp_tags: u64,
    /// Number of decoder-unavailable warnings.
    pub decoder_unavailable: u64,
    /// Number of HDR side-data records captured.
    pub hdr_side_data_count: u64,
    /// Whether mastering-display HDR metadata was present.
    pub has_mastering_display_metadata: bool,
    /// Whether content-light HDR metadata was present.
    pub has_content_light_metadata: bool,
    /// Whether HDR10+ side data was present.
    pub has_dynamic_hdr10_plus: bool,
    /// Whether Dolby Vision configuration side data was present.
    pub has_dolby_vision_config: bool,
    /// Whether ICC profile side data was present.
    pub has_icc_profile: bool,
    /// Number of ICC-vs-CICP mismatch warnings.
    pub icc_cicp_mismatch: u64,
    /// Number of parsed but unmapped ICC profile warnings.
    pub icc_profile_unmapped: u64,
    /// Whether the stream has warnings that should be shown to users.
    pub has_user_visible_warnings: bool,
}
impl VideoColorDiagnostic {
    /// Issues of the colour metadata of the stream.
    pub open spec fn spec_issue_summary(&self) -> VideoColorDiagnosticIssueSummary {
        let list = self.interpretation@.warnings;
        let hdr = self.hdr_metadata@;
        VideoColorDiagnosticIssueSummary {
            executable_color_space: self.executable,
            confidence: self.interpretation.confidence,
            source: self.interpretation.source,
            method: self.interpretation.method,
            has_raw_cicp_metadata: self.metadata is Some,
            metadata_hint_count: self.metadata_hints@.len() as u64,
            evidence_count: self.interpretation.evidence@.len() as u64,
            warning_count: self.interpretation.warnings@.len() as u64,
            multiple_metadata_hints: capped(count_of(list, DoubtKind::MultipleMetadataHints)),
            ignored_metadata_hints: capped(ignored_by(list, DoubtKind::MultipleMetadataHints)),
            metadata_hint_overrides_cicp_tags: capped(
                count_of(list, DoubtKind::MetadataHintOverridesCicpTags),
            ),
            lower_priority_metadata_hints: capped(
                count_of(list, DoubtKind::LowerPriorityMetadataHints),
            ),
            ignored_lower_priority_metadata_hints: capped(
                ignored_by(list, DoubtKind::LowerPriorityMetadataHints),
            ),
            partial_cicp_tags: capped(count_of(list, DoubtKind::PartialCicpTags)),
            missing_cicp_tags: capped(count_of(list, DoubtKind::MissingCicpTags)),
            unsupported_cicp_tags: capped(count_of(list, DoubtKind::UnsupportedCicpTags)),
            decoder_unavailable: capped(count_of(list, DoubtKind::DecoderUnavailable)),
            hdr_side_data_count: self.hdr_metadata@.len() as u64,
            has_mastering_display_metadata: has_kind(
                hdr,
                VideoHdrSideDataKind::MasteringDisplayMetadata,
            ),
            has_content_light_metadata: has_kind(hdr, VideoHdrSideDataKind::ContentLightLevel),
            has_dynamic_hdr10_plus: has_kind(hdr, VideoHdrSideDataKind::DynamicHdr10Plus),
            has_dolby_vision_config: has_kind(hdr, VideoHdrSideDataKind::DolbyVisionConfig),
            has_icc_profile: has_kind(hdr, VideoHdrSideDataKind::IccProfile),
            icc_cicp_mismatch: capped(count_of(list, DoubtKind::IccCicpMismatch)),
            icc_profile_unmapped: capped(count_of(list, DoubtKind::IccProfileUnmapped)),
            has_user_visible_warnings: self.interpretation.warnings@.len() > 0,
        }
    }

    /// The sole identity from metadata that may drive pixels.
    pub fn executable_color_space(&self) -> (r: Option<ColorSpace>)
        ensures
            r == self.executable,
    {
        self.executable
    }

    /// Issues of the colour metadata of the stream.
    pub fn issue_summary(&self) -> (r: VideoColorDiagnosticIssueSummary)
        ensures
            r == self.spec_issue_summary(),
    {
        let hdr = self.hdr_metadata.as_slice();
        let mut summary = VideoColorDiagnosticIssueSummary {
            executable_color_space: self.executable,
            confidence: self.interpretation.confidence,
            source: self.interpretation.source,
            method: self.interpretation.method,
            has_raw_cicp_metadata: self.metadata.is_some(),
            metadata_hint_count: self.metadata_hints.len() as u64,
            evidence_count: self.interpretation.evidence.len() as u64,
            warning_count: self.interpretation.warnings.len() as u64,
            multiple_metadata_hints: 0,
            ignored_metadata_hints: 0,
            metadata_hint_overrides_cicp_tags: 0,
            lower_priority_metadata_hints: 0,
            ignored_lower_priority_metadata_hints: 0,
            partial_cicp_tags: 0,
            missing_cicp_tags: 0,
            unsupported_cicp_tags: 0,
            decoder_unavailable: 0,
            hdr_side_data_count: self.hdr_metadata.len() as u64,
            has_mastering_display_metadata: any_of_kind(
                hdr,
                VideoHdrSideDataKind::MasteringDisplayMetadata,
            ),
            has_content_light_metadata: any_of_kind(hdr, VideoHdrSideDataKind::ContentLightLevel),
            has_dynamic_hdr10_plus: any_of_kind(hdr, VideoHdrSideDataKind::DynamicHdr10Plus),
            has_dolby_vision_config: any_of_kind(hdr, VideoHdrSideDataKind::DolbyVisionConfig),
            has_icc_profile: any_of_kind(hdr, VideoHdrSideDataKind::IccProfile),
            icc_cicp_mismatch: 0,
            icc_profile_unmapped: 0,
            has_user_visible_warnings: self.interpretation.warnings.len() > 0,
        };
        let ghost blank = summary;
        let ghost all = self.interpretation@.warnings;
        let mut i: usize = 0;
        assert(all.take(0) =~= Seq::empty());
        while i < self.interpretation.warnings.len()
            invariant
                i <= self.interpretation.warnings.len(),
                all == doubts(self.interpretation.warnings@),
                summary == (VideoColorDiagnosticIssueSummary {
                    multiple_metadata_hints: capped(
                        count_of(all.take(i as int), DoubtKind::MultipleMetadataHints),
                    ),
                    ignored_metadata_hints: capped(
                        ignored_by(all.take(i as int), DoubtKind::MultipleMetadataHints),
                    ),
                    metadata_hint_overrides_cicp_tags: capped(
                        count_of(all.take(i as int), DoubtKind::MetadataHintOverridesCicpTags),
                    ),
                    lower_priority_metadata_hints: capped(
                        count_of(all.take(i as int), DoubtKind::LowerPriorityMetadataHints),
                    ),
                    ignored_lower_priority_metadata_hints: capped(
                        ignored_by(all.take(i as int), DoubtKind::LowerPriorityMetadataHints),
                    ),
                    partial_cicp_tags: capped(
                        count_of(all.take(i as int), DoubtKind::PartialCicpTags),
                    ),
                    missing_cicp_tags: capped(
                        count_of(all.take(i as int), DoubtKind::MissingCicpTags),
                    ),
                    unsupported_cicp_tags: capped(
                        count_of(all.take(i as int), DoubtKind::UnsupportedCicpTags),
                    ),
                    decoder_unavailable: capped(
                        count_of(all.take(i as int), DoubtKind::DecoderUnavailable),
                    ),
                    icc_cicp_mismatch: capped(
                        count_of(all.take(i as int), DoubtKind::IccCicpMismatch),
                    ),
                    icc_profile_unmapped: capped(
                        count_of(all.take(i as int), DoubtKind::IccProfileUnmapped),
                    ),
                    ..blank
                }),
            decreases self.interpretation.warnings.len() - i,
        {
            assert(all.take(i + 1).drop_last() =~= all.take(i as int));
            assert(all.take(i + 1).last() == self.interpretation.warnings@[i as int]@);
            match &self.interpretation.warnings[i] {
                VideoColorInterpretationWarning::MultipleMetadataHints { ignored, .. } => {
                    summary.multiple_metadata_hints = summary.multiple_metadata_hints.saturating_add(
                        1,
                    );
                    summary.ignored_metadata_hints = summary.ignored_metadata_hints.saturating_add(
                        ignored.len() as u64,
                    );
                },
                VideoColorInterpretationWarning::MetadataHintOverridesCicpTags { .. } => {
                    summary.metadata_hint_overrides_cicp_tags =
                    summary.metadata_hint_overrides_cicp_tags.saturating_add(1);
                },
                VideoColorInterpretationWarning::DescriptiveMetadataHintInference { .. } => {},
                VideoColorInterpretationWarning::LowerPriorityMetadataHints { ignored, .. } => {
                    summary.lower_priority_metadata_hints =
                    summary.lower_priority_metadata_hints.saturating_add(1);
                    summary.ignored_lower_priority_metadata_hints =
                    summary.ignored_lower_priority_metadata_hints.saturating_add(
                        ignored.len() as u64,
                    );
                },
                VideoColorInterpretationWarning::PartialCicpTags { .. } => {
                    summary.partial_cicp_tags = summary.partial_cicp_tags.saturating_add(1);
                },
                VideoColorInterpretationWarning::MissingCicpTags => {
                    summary.missing_cicp_tags = summary.missing_cicp_tags.saturating_add(1);
                },
                VideoColorInterpretationWarning::UnsupportedCicpTags => {
                    summary.unsupported_cicp_tags = summary.unsupported_cicp_tags.saturating_add(1);
                },
                VideoColorInterpretationWarning::DecoderUnavailable => {
                    summary.decoder_unavailable = summary.decoder_unavailable.saturating_add(1);
                },
                VideoColorInterpretationWarning::IccCicpMismatch { .. } => {
                    summary.icc_cicp_mismatch = summary.icc_cicp_mismatch.saturating_add(1);
                },
                VideoColorInterpretationWarning::IccProfileUnmapped { .. } => {
                    summary.icc_profile_unmapped = summary.icc_profile_unmapped.saturating_add(1);
                },
            }
            i = i + 1;
        }
        assert(all.take(all.len() as int) =~= all);
        summary
    }
}

/// Totals over the issue summaries of several streams. Every counter stays at its
/// maximum once it is reached.
#[derive(Debug, Clone, Copy, PartialEq, Eq, Structural)]
pub struct VideoColorDiagnosticIssueAggregate {
    /// Number of diagnostics aggregated.
    pub diagnostics: u64,
    /// Diagnostics that resolved to an explicit color space.
    pub diagnostics_with_executable_color_space: u64,
    /// Diagnostics that carried one or more user-visible warnings.
    pub diagnostics_with_warnings: u64,
    /// Diagnostics that preserved raw CICP/FFmpeg metadata.
    pub diagnostics_with_raw_cicp_metadata: u64,
    /// Diagnostics that carried one or more metadata hints.
    pub diagnostics_with_metadata_hints: u64,
    /// Diagnostics that carried one or more HDR side-data records.
    pub diagnostics_with_hdr_metadata: u64,
    /// Diagnostics whose final decision came from metadata hints.
    pub method_metadata_hint: u64,
    /// Diagnostics whose final decision came from ICC profile metadata.
    pub method_icc_profile: u64,
    /// Diagnostics whose final decision came from CICP tags.
    pub method_cicp_tags: u64,
    /// Diagnostics that fell through to missing-metadata handling.
    pub method_missing_metadata: u64,
    /// Diagnostics whose CICP tags were present but unsupported.
    pub method_unsupported_cicp_tags: u64,
    /// Diagnostics that could not probe due to decoder unavailability.
    pub method_decoder_unavailable: u64,
    /// Diagnostics reported with high confidence.
    pub confidence_high: u64,
    /// Diagnostics reported with medium confidence.
    pub confidence_medium: u64,
    /// Diagnostics reported with low confidence.
    pub confidence_low: u64,
    /// Diagnostics reported with no confidence.
    pub confidence_none: u64,
    /// Total metadata hints observed across all diagnostics.
    pub metadata_hint_count: u64,
    /// Total evidence records observed across all diagnostics.
    pub evidence_count: u64,
    /// Total warnings observed across all diagnostics.
    pub warning_count: u64,
    /// Total multiple-hint ambiguity warnings.
    pub multiple_metadata_hints: u64,
    /// Total ignored metadata hints across multiple-hint warnings.
    pub ignored_metadata_hints: u64,
    /// Total hint-vs-CICP conflict warnings.
    pub metadata_hint_overrides_cicp_tags: u64,
    /// Total warnings where stronger evidence overrode free-form metadata hints.
    pub lower_priority_metadata_hints: u64,
    /// Total lower-priority metadata hints retained but not selected.
    pub ignored_lower_priority_metadata_hints: u64,
    /// Total partial CICP inference warnings.
    pub partial_cicp_tags: u64,
    /// Total missing CICP warnings.
    pub missing_cicp_tags: u64,
    /// Total unsupported CICP warnings.
    pub unsupported_cicp_tags: u64,
    /// Total decoder-unavailable warnings.
    pub decoder_unavailable: u64,
    /// Total HDR side-data records observed across all diagnostics.
    pub hdr_side_data_count: u64,
    /// Diagnostics that carried mastering-display HDR metadata.
    pub diagnostics_with_mastering_display_metadata: u64,
    /// Diagnostics that carried content-light HDR metadata.
    pub diagnostics_with_content_light_metadata: u64,
    /// Diagnostics that carried HDR10+ metadata.
    pub diagnostics_with_dynamic_hdr10_plus: u64,
    /// Diagnostics that carried Dolby Vision configuration metadata.
    pub diagnostics_with_dolby_vision_config: u64,
    /// Diagnostics that carried ICC profile metadata.
    pub diagnostics_with_icc_profile: u64,
    /// Diagnostics with ICC-vs-CICP mismatch warnings.
    pub diagnostics_with_icc_cicp_mismatch: u64,
    /// Diagnostics containing parsed but unmapped ICC profiles.
    pub diagnostics_with_icc_profile_unmapped: u64,
}

impl VideoColorDiagnosticIssueAggregate {
    /// The totals with one more summary.
    pub open spec fn observed(self, summary: VideoColorDiagnosticIssueSummary) ->
        VideoColorDiagnosticIssueAggregate {
        VideoColorDiagnosticIssueAggregate {
            diagnostics: capped_sum(self.diagnostics, 1),
            diagnostics_with_executable_color_space: capped_sum(self.diagnostics_with_executable_color_space, bit(summary.executable_color_space is Some)),
            diagnostics_with_warnings: capped_sum(self.diagnostics_with_warnings, bit(summary.has_user_visible_warnings)),
            diagnostics_with_raw_cicp_metadata: capped_sum(self.diagnostics_with_raw_cicp_metadata, bit(summary.has_raw_cicp_metadata)),
            diagnostics_with_metadata_hints: capped_sum(self.diagnostics_with_metadata_hints, bit(summary.metadata_hint_count > 0)),
            diagnostics_with_hdr_metadata: capped_sum(self.diagnostics_with_hdr_metadata, bit(summary.hdr_side_data_count > 0)),
            method_metadata_hint: capped_sum(self.method_metadata_hint, bit(summary.method
                == VideoColorDetectionMethod::MetadataHint)),
            method_icc_profile: capped_sum(self.method_icc_profile, bit(summary.method
                == VideoColorDetectionMethod::IccProfile)),
            method_cicp_tags: capped_sum(self.method_cicp_tags, bit(summary.method
                == VideoColorDetectionMethod::CicpTags)),
            method_missing_metadata: capped_sum(self.method_missing_metadata, bit(summary.method == VideoColorDetectionMethod::MissingMetadata)),
            method_unsupported_cicp_tags: capped_sum(self.method_unsupported_cicp_tags, bit(summary.method == VideoColorDetectionMethod::UnsupportedCicpTags)),
            method_decoder_unavailable: capped_sum(self.method_decoder_unavailable, bit(summary.method == VideoColorDetectionMethod::DecoderUnavailable)),
            confidence_high: capped_sum(self.confidence_high, bit(summary.confidence
                == VideoColorInterpretationConfidence::High)),
            confidence_medium: capped_sum(self.confidence_medium, bit(summary.confidence
                == VideoColorInterpretationConfidence::Medium)),
            confidence_low: capped_sum(self.confidence_low, bit(summary.confidence
                == VideoColorInterpretationConfidence::Low)),
            confidence_none: capped_sum(self.confidence_none, bit(summary.confidence
                == VideoColorInterpretationConfidence::Absent)),
            metadata_hint_count: capped_sum(self.metadata_hint_count, summary.metadata_hint_count as nat),
            evidence_count: capped_sum(self.evidence_count, summary.evidence_count as nat),
            warning_count: capped_sum(self.warning_count, summary.warning_count as nat),
            multiple_metadata_hints: capped_sum(self.multiple_metadata_hints, summary.multiple_metadata_hints as nat),
            ignored_metadata_hints: capped_sum(self.ignored_metadata_hints, summary.ignored_metadata_hints as nat),
            metadata_hint_overrides_cicp_tags: capped_sum(self.metadata_hint_overrides_cicp_tags, summary.metadata_hint_overrides_cicp_tags as nat),
            lower_priority_metadata_hints: capped_sum(self.lower_priority_metadata_hints, summary.lower_priority_metadata_hints as nat),
            ignored_lower_priority_metadata_hints: capped_sum(self.ignored_lower_priority_metadata_hints, summary.ignored_lower_priority_metadata_hints as nat),
            partial_cicp_tags: capped_sum(self.partial_cicp_tags, summary.partial_cicp_tags as nat),
            missing_cicp_tags: capped_sum(self.missing_cicp_tags, summary.missing_cicp_tags as nat),
            unsupported_cicp_tags: capped_sum(self.unsupported_cicp_tags, summary.unsupported_cicp_tags as nat),
            decoder_unavailable: capped_sum(self.decoder_unavailable, summary.decoder_unavailable as nat),
            hdr_side_data_count: capped_sum(self.hdr_side_data_count, summary.hdr_side_data_count as nat),
            diagnostics_with_mastering_display_metadata: capped_sum(self.diagnostics_with_mastering_display_metadata, bit(summary.has_mastering_display_metadata)),
            diagnostics_with_content_light_metadata: capped_sum(self.diagnostics_with_content_light_metadata, bit(summary.has_content_light_metadata)),
            diagnostics_with_dynamic_hdr10_plus: capped_sum(self.diagnostics_with_dynamic_hdr10_plus, bit(summary.has_dynamic_hdr10_plus)),
            diagnostics_with_dolby_vision_config: capped_sum(self.diagnostics_with_dolby_vision_config, bit(summary.has_dolby_vision_config)),
            diagnostics_with_icc_profile: capped_sum(self.diagnostics_with_icc_profile, bit(summary.has_icc_profile)),
            diagnostics_with_icc_cicp_mismatch: capped_sum(self.diagnostics_with_icc_cicp_mismatch, bit(summary.icc_cicp_mismatch > 0)),
            diagnostics_with_icc_profile_unmapped: capped_sum(self.diagnostics_with_icc_profile_unmapped, bit(summary.icc_profile_unmapped > 0)),
        }
    }

    /// The totals of nothing.
    pub open spec fn nothing() -> VideoColorDiagnosticIssueAggregate {
        VideoColorDiagnosticIssueAggregate {
            diagnostics: 0,
            diagnostics_with_executable_color_space: 0,
            diagnostics_with_warnings: 0,
            diagnostics_with_raw_cicp_metadata: 0,
            diagnostics_with_metadata_hints: 0,
            diagnostics_with_hdr_metadata: 0,
            method_metadata_hint: 0,
            method_icc_profile: 0,
            method_cicp_tags: 0,
            method_missing_metadata: 0,
            method_unsupported_cicp_tags: 0,
            method_decoder_unavailable: 0,
            confidence_high: 0,
            confidence_medium: 0,
            confidence_low: 0,
            confidence_none: 0,
            metadata_hint_count: 0,
            evidence_count: 0,
            warning_count: 0,
            multiple_metadata_hints: 0,
            ignored_metadata_hints: 0,
            metadata_hint_overrides_cicp_tags: 0,
            lower_priority_metadata_hints: 0,
            ignored_lower_priority_metadata_hints: 0,
            partial_cicp_tags: 0,
            missing_cicp_tags: 0,
            unsupported_cicp_tags: 0,
            decoder_unavailable: 0,
            hdr_side_data_count: 0,
            diagnostics_with_mastering_display_metadata: 0,
            diagnostics_with_content_light_metadata: 0,
            diagnostics_with_dynamic_hdr10_plus: 0,
            diagnostics_with_dolby_vision_config: 0,
            diagnostics_with_icc_profile: 0,
            diagnostics_with_icc_cicp_mismatch: 0,
            diagnostics_with_icc_profile_unmapped: 0,
        }
    }

    /// Counts one summary.
    pub fn observe_summary(&mut self, summary: VideoColorDiagnosticIssueSummary)
        ensures
            *final(self) == old(self).observed(summary),
    {
        self.diagnostics = self.diagnostics.saturating_add(1);
        self.diagnostics_with_executable_color_space = self.diagnostics_with_executable_color_space.saturating_add(flag(summary.executable_color_space.is_some()));
        self.diagnostics_with_warnings = self.diagnostics_with_warnings.saturating_add(flag(summary.has_user_visible_warnings));
        self.diagnostics_with_raw_cicp_metadata = self.diagnostics_with_raw_cicp_metadata.saturating_add(flag(summary.has_raw_cicp_metadata));
        self.diagnostics_with_metadata_hints = self.diagnostics_with_metadata_hints.saturating_add(flag(summary.metadata_hint_count > 0));
        self.diagnostics_with_hdr_metadata = self.diagnostics_with_hdr_metadata.saturating_add(flag(summary.hdr_side_data_count > 0));
        self.method_metadata_hint = self.method_metadata_hint.saturating_add(flag(summary.method == VideoColorDetectionMethod::MetadataHint));
        self.method_icc_profile = self.method_icc_profile.saturating_add(flag(summary.method
            == VideoColorDetectionMethod::IccProfile));
        self.method_cicp_tags = self.method_cicp_tags.saturating_add(flag(summary.method
            == VideoColorDetectionMethod::CicpTags));
        self.method_missing_metadata = self.method_missing_metadata.saturating_add(flag(summary.method == VideoColorDetectionMethod::MissingMetadata));
        self.method_unsupported_cicp_tags = self.method_unsupported_cicp_tags.saturating_add(flag(summary.method == VideoColorDetectionMethod::UnsupportedCicpTags));
        self.method_decoder_unavailable = self.method_decoder_unavailable.saturating_add(flag(summary.method == VideoColorDetectionMethod::DecoderUnavailable));
        self.confidence_high = self.confidence_high.saturating_add(flag(summary.confidence
            == VideoColorInterpretationConfidence::High));
        self.confidence_medium = self.confidence_medium.saturating_add(flag(summary.confidence
            == VideoColorInterpretationConfidence::Medium));
        self.confidence_low = self.confidence_low.saturating_add(flag(summary.confidence
            == VideoColorInterpretationConfidence::Low));
        self.confidence_none = self.confidence_none.saturating_add(flag(summary.confidence
            == VideoColorInterpretationConfidence::Absent));
        self.metadata_hint_count = self.metadata_hint_count.saturating_add(summary.metadata_hint_count);
        self.evidence_count = self.evidence_count.saturating_add(summary.evidence_count);
        self.warning_count = self.warning_count.saturating_add(summary.warning_count);
        self.multiple_metadata_hints = self.multiple_metadata_hints.saturating_add(summary.multiple_metadata_hints);
        self.ignored_metadata_hints = self.ignored_metadata_hints.saturating_add(summary.ignored_metadata_hints);
        self.metadata_hint_overrides_cicp_tags = self.metadata_hint_overrides_cicp_tags.saturating_add(summary.metadata_hint_overrides_cicp_tags);
        self.lower_priority_metadata_hints = self.lower_priority_metadata_hints.saturating_add(summary.lower_priority_metadata_hints);
        self.ignored_lower_priority_metadata_hints = self.ignored_lower_priority_metadata_hints.saturating_add(summary.ignored_lower_priority_metadata_hints);
        self.partial_cicp_tags = self.partial_cicp_tags.saturating_add(summary.partial_cicp_tags);
        self.missing_cicp_tags = self.missing_cicp_tags.saturating_add(summary.missing_cicp_tags);
        self.unsupported_cicp_tags = self.unsupported_cicp_tags.saturating_add(summary.unsupported_cicp_tags);
        self.decoder_unavailable = self.decoder_unavailable.saturating_add(summary.decoder_unavailable);
        self.hdr_side_data_count = self.hdr_side_data_count.saturating_add(summary.hdr_side_data_count);
        self.diagnostics_with_mastering_display_metadata = self.diagnostics_with_mastering_display_metadata.saturating_add(flag(summary.has_mastering_display_metadata));
        self.diagnostics_with_content_light_metadata = self.diagnostics_with_content_light_metadata.saturating_add(flag(summary.has_content_light_metadata));
        self.diagnostics_with_dynamic_hdr10_plus = self.diagnostics_with_dynamic_hdr10_plus.saturating_add(flag(summary.has_dynamic_hdr10_plus));
        self.diagnostics_with_dolby_vision_config = self.diagnostics_with_dolby_vision_config.saturating_add(flag(summary.has_dolby_vision_config));
        self.diagnostics_with_icc_profile = self.diagnostics_with_icc_profile.saturating_add(flag(summary.has_icc_profile));
        self.diagnostics_with_icc_cicp_mismatch = self.diagnostics_with_icc_cicp_mismatch.saturating_add(flag(summary.icc_cicp_mismatch > 0));
        self.diagnostics_with_icc_profile_unmapped = self.diagnostics_with_icc_profile_unmapped.saturating_add(flag(summary.icc_profile_unmapped > 0));
    }

    /// Counts one diagnostic.
    pub fn observe(&mut self, diagnostic: &VideoColorDiagnostic)
        ensures
            *final(self) == old(self).observed(diagnostic.spec_issue_summary()),
    {
        self.observe_summary(diagnostic.issue_summary());
    }

    /// The totals of the first `n` diagnostics.
    pub open spec fn total(diagnostics: Seq<VideoColorDiagnostic>, n: nat) ->
        VideoColorDiagnosticIssueAggregate
        decreases n,
    {
        if n == 0 {
            VideoColorDiagnosticIssueAggregate::nothing()
        } else {
            VideoColorDiagnosticIssueAggregate::total(diagnostics, (n - 1) as nat).observed(
                diagnostics[n - 1].spec_issue_summary(),
            )
        }
    }

    /// The totals of several diagnostics.
    pub fn from_diagnostics(diagnostics: &[VideoColorDiagnostic]) -> (r:
        VideoColorDiagnosticIssueAggregate)
        ensures
            r == VideoColorDiagnosticIssueAggregate::total(diagnostics@, diagnostics@.len()),
    {
        let mut aggregate = VideoColorDiagnosticIssueAggregate::default();
        let mut i: usize = 0;
        while i < diagnostics.len()
            invariant
                i <= diagnostics.len(),
                aggregate == VideoColorDiagnosticIssueAggregate::total(diagnostics@, i as nat),
            decreases diagnostics.len() - i,
        {
            aggregate.observe(&diagnostics[i]);
            i = i + 1;
        }
        aggregate
    }
}

impl Default for VideoColorDiagnosticIssueAggregate {
    fn default() -> (r: VideoColorDiagnosticIssueAggregate)
        ensures
            r == VideoColorDiagnosticIssueAggregate::nothing(),
    {
        VideoColorDiagnosticIssueAggregate {
            diagnostics: 0,
            diagnostics_with_executable_color_space: 0,
            diagnostics_with_warnings: 0,
            diagnostics_with_raw_cicp_metadata: 0,
            diagnostics_with_metadata_hints: 0,
            diagnostics_with_hdr_metadata: 0,
            method_metadata_hint: 0,
            method_icc_profile: 0,
            method_cicp_tags: 0,
            method_missing_metadata: 0,
            method_unsupported_cicp_tags: 0,
            method_decoder_unavailable: 0,
            confidence_high: 0,
            confidence_medium: 0,
            confidence_low: 0,
            confidence_none: 0,
            metadata_hint_count: 0,
            evidence_count: 0,
            warning_count: 0,
            multiple_metadata_hints: 0,
            ignored_metadata_hints: 0,
            metadata_hint_overrides_cicp_tags: 0,
            lower_priority_metadata_hints: 0,
            ignored_lower_priority_metadata_hints: 0,
            partial_cicp_tags: 0,
            missing_cicp_tags: 0,
            unsupported_cicp_tags: 0,
            decoder_unavailable: 0,
            hdr_side_data_count: 0,
            diagnostics_with_mastering_display_metadata: 0,
            diagnostics_with_content_light_metadata: 0,
            diagnostics_with_dynamic_hdr10_plus: 0,
            diagnostics_with_dolby_vision_config: 0,
            diagnostics_with_icc_profile: 0,
            diagnostics_with_icc_cicp_mismatch: 0,
            diagnostics_with_icc_profile_unmapped: 0,
        }
    }
}
/// Texts with a bar in between.
pub open spec fn bar_separated(parts: Seq<String>) -> Seq<char>
    decreases parts.len(),
{
    if parts.len() == 0 {
        seq![]
    } else if parts.len() == 1 {
        parts[0]@
    } else {
        bar_separated(parts.drop_last()) + "|"@ + parts.last()@
    }
}

/// Texts with a bar in between, or `none` where there are none.
pub open spec fn bar_list(parts: Seq<String>) -> Seq<char> {
    if parts.len() == 0 {
        "none"@
    } else {
        bar_separated(parts)
    }
}

fn push_bar_list(out: &mut String, parts: &Vec<String>)
    ensures
        final(out)@ == old(out)@ + bar_list(parts@),
{
    if parts.len() == 0 {
        out.append("none");
        return ;
    }
    let ghost start = out@;
    let mut i: usize = 0;
    assert(out@ =~= start + bar_separated(parts@.take(0)));
    while i < parts.len()
        invariant
            i <= parts.len(),
            out@ == start + bar_separated(parts@.take(i as int)),
        decreases parts.len() - i,
    {
        let ghost after = parts@.take(i + 1);
        assert(after.drop_last() =~= parts@.take(i as int));
        if i > 0 {
            out.append("|");
        }
        out.append(parts[i].as_str());
        assert(out@ =~= start + bar_separated(after));
        i = i + 1;
    }
    assert(parts@.take(parts@.len() as int) =~= parts@);
}

/// Name of a source state in diagnostics.
pub open spec fn source_name(source: VideoColorSpaceSource) -> Seq<char> {
    match source {
        VideoColorSpaceSource::Metadata => "Metadata"@,
        VideoColorSpaceSource::MissingMetadata => "MissingMetadata"@,
        VideoColorSpaceSource::UnsupportedMetadata => "UnsupportedMetadata"@,
        VideoColorSpaceSource::DecoderUnavailable => "DecoderUnavailable"@,
    }
}

/// Name of a method in diagnostics.
pub open spec fn method_name(method: VideoColorDetectionMethod) -> Seq<char> {
    match method {
        VideoColorDetectionMethod::MetadataHint => "MetadataHint"@,
        VideoColorDetectionMethod::IccProfile => "IccProfile"@,
        VideoColorDetectionMethod::CicpTags => "CicpTags"@,
        VideoColorDetectionMethod::MissingMetadata => "MissingMetadata"@,
        VideoColorDetectionMethod::UnsupportedCicpTags => "UnsupportedCicpTags"@,
        VideoColorDetectionMethod::DecoderUnavailable => "DecoderUnavailable"@,
    }
}

/// Name of a range in diagnostics.
pub open spec fn range_name(range: DecodedVideoRange) -> Seq<char> {
    match range {
        DecodedVideoRange::Unknown => "Unknown"@,
        DecodedVideoRange::Limited => "Limited"@,
        DecodedVideoRange::Full => "Full"@,
    }
}

/// Name of a confidence in diagnostics.
pub open spec fn confidence_name(confidence: VideoColorInterpretationConfidence) -> Seq<char> {
    match confidence {
        VideoColorInterpretationConfidence::High => "High"@,
        VideoColorInterpretationConfidence::Medium => "Medium"@,
        VideoColorInterpretationConfidence::Low => "Low"@,
        VideoColorInterpretationConfidence::Absent => "None"@,
    }
}

/// Name of an optional identity in diagnostics.
pub open spec fn space_name(space: Option<ColorSpace>) -> Seq<char> {
    match space {
        Some(space) => space.spec_name(),
        None => "None"@,
    }
}

fn source_str(source: VideoColorSpaceSource) -> (r: &'static str)
    ensures
        r@ == source_name(source),
{
    match source {
        VideoColorSpaceSource::Metadata => "Metadata",
        VideoColorSpaceSource::MissingMetadata => "MissingMetadata",
        VideoColorSpaceSource::UnsupportedMetadata => "UnsupportedMetadata",
        VideoColorSpaceSource::DecoderUnavailable => "DecoderUnavailable",
    }
}

fn method_str(method: VideoColorDetectionMethod) -> (r: &'static str)
    ensures
        r@ == method_name(method),
{
    match method {
        VideoColorDetectionMethod::MetadataHint => "MetadataHint",
        VideoColorDetectionMethod::IccProfile => "IccProfile",
        VideoColorDetectionMethod::CicpTags => "CicpTags",
        VideoColorDetectionMethod::MissingMetadata => "MissingMetadata",
        VideoColorDetectionMethod::UnsupportedCicpTags => "UnsupportedCicpTags",
        VideoColorDetectionMethod::DecoderUnavailable => "DecoderUnavailable",
    }
}

fn range_str(range: DecodedVideoRange) -> (r: &'static str)
    ensures
        r@ == range_name(range),
{
    match range {
        DecodedVideoRange::Unknown => "Unknown",
        DecodedVideoRange::Limited => "Limited",
        DecodedVideoRange::Full => "Full",
    }
}

fn confidence_str(confidence: VideoColorInterpretationConfidence) -> (r: &'static str)
    ensures
        r@ == confidence_name(confidence),
{
    match confidence {
        VideoColorInterpretationConfidence::High => "High",
        VideoColorInterpretationConfidence::Medium => "Medium",
        VideoColorInterpretationConfidence::Low => "Low",
        VideoColorInterpretationConfidence::Absent => "None",
    }
}

fn space_str(space: Option<ColorSpace>) -> (r: &'static str)
    ensures
        r@ == space_name(space),
{
    match space {
        Some(space) => space.name(),
        None => "None",
    }
}

/// Rendered parts of a diagnostic.
#[derive(Debug, Clone)]
pub struct DiagnosticTexts {
    /// The raw tags, where there are any.
    pub metadata: Option<String>,
    /// One text per hint.
    pub hints: Vec<String>,
    /// One text per record of side data.
    pub hdr: Vec<String>,
    /// One text per warning.
    pub warnings: Vec<String>,
}

impl VideoColorDiagnostic {
    /// The diagnostic on one line.
    pub open spec fn spec_summary(&self, texts: DiagnosticTexts) -> Seq<char> {
        "source="@ + source_name(self.interpretation.source) + ",method="@ + method_name(
            self.interpretation.method,
        ) + ",candidate="@ + space_name(self.interpretation.candidate_color_space)
            + ",executable="@ + space_name(self.executable) + ",range="@ + range_name(
            self.color_range,
        ) + ",confidence="@ + confidence_name(self.interpretation.confidence) + ",overridable="@ + (
        if self.interpretation.user_overridable {
            "true"@
        } else {
            "false"@
        }) + ",warnings="@ + bar_list(texts.warnings@) + ",metadata="@ + (match texts.metadata {
            Some(text) => text@,
            None => "unavailable"@,
        }) + ",hints="@ + bar_list(texts.hints@) + ",hdr="@ + bar_list(texts.hdr@)
    }

    /// The diagnostic on one line, for logs and error reports.
    pub fn summary(&self, texts: &DiagnosticTexts) -> (out: String)
        ensures
            out@ == self.spec_summary(*texts),
    {
        let mut out = "source=".to_owned();
        out.append(source_str(self.interpretation.source));
        out.append(",method=");
        out.append(method_str(self.interpretation.method));
        out.append(",candidate=");
        out.append(space_str(self.interpretation.candidate_color_space));
        out.append(",executable=");
        out.append(space_str(self.executable));
        out.append(",range=");
        out.append(range_str(self.color_range));
        out.append(",confidence=");
        out.append(confidence_str(self.interpretation.confidence));
        out.append(",overridable=");
        if self.interpretation.user_overridable {
            out.append("true");
        } else {
            out.append("false");
        }
        out.append(",warnings=");
        push_bar_list(&mut out, &texts.warnings);
        out.append(",metadata=");
        match &texts.metadata {
            Some(text) => {
                out.append(text.as_str());
            },
            None => {
                out.append("unavailable");
            },
        }
        out.append(",hints=");
        push_bar_list(&mut out, &texts.hints);
        out.append(",hdr=");
        push_bar_list(&mut out, &texts.hdr);
        out
    }
}

/// Observing a summary adds one diagnostic, until that count is at its maximum, and
/// makes no total smaller.
pub proof fn observation_only_adds(
    totals: VideoColorDiagnosticIssueAggregate,
    summary: VideoColorDiagnosticIssueSummary,
)
    ensures
        totals.diagnostics < u64::MAX ==> totals.observed(summary).diagnostics
            == totals.diagnostics + 1,
        totals.observed(summary).diagnostics >= totals.diagnostics,
        totals.observed(summary).diagnostics_with_executable_color_space >= totals.diagnostics_with_executable_color_space,
        totals.observed(summary).diagnostics_with_warnings >= totals.diagnostics_with_warnings,
        totals.observed(summary).diagnostics_with_raw_cicp_metadata >= totals.diagnostics_with_raw_cicp_metadata,
        totals.observed(summary).diagnostics_with_metadata_hints >= totals.diagnostics_with_metadata_hints,
        totals.observed(summary).diagnostics_with_hdr_metadata >= totals.diagnostics_with_hdr_metadata,
        totals.observed(summary).method_metadata_hint >= totals.method_metadata_hint,
        totals.observed(summary).method_icc_profile >= totals.method_icc_profile,
        totals.observed(summary).method_cicp_tags >= totals.method_cicp_tags,
        totals.observed(summary).method_missing_metadata >= totals.method_missing_metadata,
        totals.observed(summary).method_unsupported_cicp_tags >= totals.method_unsupported_cicp_tags,
        totals.observed(summary).method_decoder_unavailable >= totals.method_decoder_unavailable,
        totals.observed(summary).confidence_high >= totals.confidence_high,
        totals.observed(summary).confidence_medium >= totals.confidence_medium,
        totals.observed(summary).confidence_low >= totals.confidence_low,
        totals.observed(summary).confidence_none >= totals.confidence_none,
        totals.observed(summary).metadata_hint_count >= totals.metadata_hint_count,
        totals.observed(summary).evidence_count >= totals.evidence_count,
        totals.observed(summary).warning_count >= totals.warning_count,
        totals.observed(summary).multiple_metadata_hints >= totals.multiple_metadata_hints,
        totals.observed(summary).ignored_metadata_hints >= totals.ignored_metadata_hints,
        totals.observed(summary).metadata_hint_overrides_cicp_tags >= totals.metadata_hint_overrides_cicp_tags,
        totals.observed(summary).lower_priority_metadata_hints >= totals.lower_priority_metadata_hints,
        totals.observed(summary).ignored_lower_priority_metadata_hints >= totals.ignored_lower_priority_metadata_hints,
        totals.observed(summary).partial_cicp_tags >= totals.partial_cicp_tags,
        totals.observed(summary).missing_cicp_tags >= totals.missing_cicp_tags,
        totals.observed(summary).unsupported_cicp_tags >= totals.unsupported_cicp_tags,
        totals.observed(summary).decoder_unavailable >= totals.decoder_unavailable,
        totals.observed(summary).hdr_side_data_count >= totals.hdr_side_data_count,
        totals.observed(summary).diagnostics_with_mastering_display_metadata >= totals.diagnostics_with_mastering_display_metadata,
        totals.observed(summary).diagnostics_with_content_light_metadata >= totals.diagnostics_with_content_light_metadata,
        totals.observed(summary).diagnostics_with_dynamic_hdr10_plus >= totals.diagnostics_with_dynamic_hdr10_plus,
        totals.observed(summary).diagnostics_with_dolby_vision_config >= totals.diagnostics_with_dolby_vision_config,
        totals.observed(summary).diagnostics_with_icc_profile >= totals.diagnostics_with_icc_profile,
        totals.observed(summary).diagnostics_with_icc_cicp_mismatch >= totals.diagnostics_with_icc_cicp_mismatch,
        totals.observed(summary).diagnostics_with_icc_profile_unmapped >= totals.diagnostics_with_icc_profile_unmapped,
{
}

/// While no counter is full, the methods and the confidences each share out the
/// diagnostics among them.
pub proof fn methods_and_confidences_partition(diagnostics: Seq<VideoColorDiagnostic>, n: nat)
    requires
        n <= diagnostics.len(),
        n <= u64::MAX,
    ensures
        ({
            let t = VideoColorDiagnosticIssueAggregate::total(diagnostics, n);
            &&& t.diagnostics == n
            &&& t.method_metadata_hint + t.method_icc_profile + t.method_cicp_tags
                + t.method_missing_metadata + t.method_unsupported_cicp_tags
                + t.method_decoder_unavailable == n
            &&& t.confidence_high + t.confidence_medium + t.confidence_low + t.confidence_none
                == n
        }),
    decreases n,
{
    if n > 0 {
        methods_and_confidences_partition(diagnostics, (n - 1) as nat);
    }
}

/// A counter of diagnostics goes up by one for each diagnostic that has what it counts, and
/// for no other; a total goes up by the number that a diagnostic brings. Both stay at their
/// largest value once they are there.
pub proof fn counters_count_what_they_are_named_for(
    totals: VideoColorDiagnosticIssueAggregate,
    summary: VideoColorDiagnosticIssueSummary,
)
    ensures
        totals.diagnostics_with_executable_color_space < u64::MAX
            ==> (totals.observed(summary).diagnostics_with_executable_color_space
            == totals.diagnostics_with_executable_color_space + 1
            <==> summary.executable_color_space is Some),
        !(summary.executable_color_space is Some)
            ==> totals.observed(summary).diagnostics_with_executable_color_space
            == totals.diagnostics_with_executable_color_space,
        totals.diagnostics_with_warnings < u64::MAX
            ==> (totals.observed(summary).diagnostics_with_warnings
            == totals.diagnostics_with_warnings + 1 <==> summary.has_user_visible_warnings),
        !(summary.has_user_visible_warnings)
            ==> totals.observed(summary).diagnostics_with_warnings
            == totals.diagnostics_with_warnings,
        totals.diagnostics_with_raw_cicp_metadata < u64::MAX
            ==> (totals.observed(summary).diagnostics_with_raw_cicp_metadata
            == totals.diagnostics_with_raw_cicp_metadata + 1 <==> summary.has_raw_cicp_metadata),
        !(summary.has_raw_cicp_metadata)
            ==> totals.observed(summary).diagnostics_with_raw_cicp_metadata
            == totals.diagnostics_with_raw_cicp_metadata,
        totals.diagnostics_with_metadata_hints < u64::MAX
            ==> (totals.observed(summary).diagnostics_with_metadata_hints
            == totals.diagnostics_with_metadata_hints + 1 <==> summary.metadata_hint_count > 0),
        !(summary.metadata_hint_count > 0)
            ==> totals.observed(summary).diagnostics_with_metadata_hints
            == totals.diagnostics_with_metadata_hints,
        totals.diagnostics_with_hdr_metadata < u64::MAX
            ==> (totals.observed(summary).diagnostics_with_hdr_metadata
            == totals.diagnostics_with_hdr_metadata + 1 <==> summary.hdr_side_data_count > 0),
        !(summary.hdr_side_data_count > 0)
            ==> totals.observed(summary).diagnostics_with_hdr_metadata
            == totals.diagnostics_with_hdr_metadata,
        totals.method_metadata_hint < u64::MAX
            ==> (totals.observed(summary).method_metadata_hint
            == totals.method_metadata_hint + 1 <==> summary.method is MetadataHint),
        !(summary.method is MetadataHint) ==> totals.observed(summary).method_metadata_hint
            == totals.method_metadata_hint,
        totals.method_icc_profile < u64::MAX ==> (totals.observed(summary).method_icc_profile
            == totals.method_icc_profile + 1 <==> summary.method is IccProfile),
        !(summary.method is IccProfile) ==> totals.observed(summary).method_icc_profile
            == totals.method_icc_profile,
        totals.method_cicp_tags < u64::MAX ==> (totals.observed(summary).method_cicp_tags
            == totals.method_cicp_tags + 1 <==> summary.method is CicpTags),
        !(summary.method is CicpTags) ==> totals.observed(summary).method_cicp_tags
            == totals.method_cicp_tags,
        totals.method_missing_metadata < u64::MAX
            ==> (totals.observed(summary).method_missing_metadata
            == totals.method_missing_metadata + 1 <==> summary.method is MissingMetadata),
        !(summary.method is MissingMetadata)
            ==> totals.observed(summary).method_missing_metadata == totals.method_missing_metadata,
        totals.method_unsupported_cicp_tags < u64::MAX
            ==> (totals.observed(summary).method_unsupported_cicp_tags
            == totals.method_unsupported_cicp_tags + 1 <==> summary.method is UnsupportedCicpTags),
        !(summary.method is UnsupportedCicpTags)
            ==> totals.observed(summary).method_unsupported_cicp_tags
            == totals.method_unsupported_cicp_tags,
        totals.method_decoder_unavailable < u64::MAX
            ==> (totals.observed(summary).method_decoder_unavailable
            == totals.method_decoder_unavailable + 1 <==> summary.method is DecoderUnavailable),
        !(summary.method is DecoderUnavailable)
            ==> totals.observed(summary).method_decoder_unavailable
            == totals.method_decoder_unavailable,
        totals.confidence_high < u64::MAX ==> (totals.observed(summary).confidence_high
            == totals.confidence_high + 1 <==> summary.confidence is High),
        !(summary.confidence is High) ==> totals.observed(summary).confidence_high
            == totals.confidence_high,
        totals.confidence_medium < u64::MAX ==> (totals.observed(summary).confidence_medium
            == totals.confidence_medium + 1 <==> summary.confidence is Medium),
        !(summary.confidence is Medium) ==> totals.observed(summary).confidence_medium
            == totals.confidence_medium,
        totals.confidence_low < u64::MAX ==> (totals.observed(summary).confidence_low
            == totals.confidence_low + 1 <==> summary.confidence is Low),
        !(summary.confidence is Low) ==> totals.observed(summary).confidence_low
            == totals.confidence_low,
        totals.confidence_none < u64::MAX ==> (totals.observed(summary).confidence_none
            == totals.confidence_none + 1 <==> summary.confidence is Absent),
        !(summary.confidence is Absent) ==> totals.observed(summary).confidence_none
            == totals.confidence_none,
        totals.diagnostics_with_mastering_display_metadata < u64::MAX
            ==> (totals.observed(summary).diagnostics_with_mastering_display_metadata
            == totals.diagnostics_with_mastering_display_metadata + 1
            <==> summary.has_mastering_display_metadata),
        !(summary.has_mastering_display_metadata)
            ==> totals.observed(summary).diagnostics_with_mastering_display_metadata
            == totals.diagnostics_with_mastering_display_metadata,
        totals.diagnostics_with_content_light_metadata < u64::MAX
            ==> (totals.observed(summary).diagnostics_with_content_light_metadata
            == totals.diagnostics_with_content_light_metadata + 1
            <==> summary.has_content_light_metadata),
        !(summary.has_content_light_metadata)
            ==> totals.observed(summary).diagnostics_with_content_light_metadata
            == totals.diagnostics_with_content_light_metadata,
        totals.diagnostics_with_dynamic_hdr10_plus < u64::MAX
            ==> (totals.observed(summary).diagnostics_with_dynamic_hdr10_plus
            == totals.diagnostics_with_dynamic_hdr10_plus + 1 <==> summary.has_dynamic_hdr10_plus),
        !(summary.has_dynamic_hdr10_plus)
            ==> totals.observed(summary).diagnostics_with_dynamic_hdr10_plus
            == totals.diagnostics_with_dynamic_hdr10_plus,
        totals.diagnostics_with_dolby_vision_config < u64::MAX
            ==> (totals.observed(summary).diagnostics_with_dolby_vision_config
            == totals.diagnostics_with_dolby_vision_config + 1
            <==> summary.has_dolby_vision_config),
        !(summary.has_dolby_vision_config)
            ==> totals.observed(summary).diagnostics_with_dolby_vision_config
            == totals.diagnostics_with_dolby_vision_config,
        totals.diagnostics_with_icc_profile < u64::MAX
            ==> (totals.observed(summary).diagnostics_with_icc_profile
            == totals.diagnostics_with_icc_profile + 1 <==> summary.has_icc_profile),
        !(summary.has_icc_profile) ==> totals.observed(summary).diagnostics_with_icc_profile
            == totals.diagnostics_with_icc_profile,
        totals.diagnostics_with_icc_cicp_mismatch < u64::MAX
            ==> (totals.observed(summary).diagnostics_with_icc_cicp_mismatch
            == totals.diagnostics_with_icc_cicp_mismatch + 1 <==> summary.icc_cicp_mismatch > 0),
        !(summary.icc_cicp_mismatch > 0)
            ==> totals.observed(summary).diagnostics_with_icc_cicp_mismatch
            == totals.diagnostics_with_icc_cicp_mismatch,
        totals.diagnostics_with_icc_profile_unmapped < u64::MAX
            ==> (totals.observed(summary).diagnostics_with_icc_profile_unmapped
            == totals.diagnostics_with_icc_profile_unmapped + 1
            <==> summary.icc_profile_unmapped > 0),
        !(summary.icc_profile_unmapped > 0)
            ==> totals.observed(summary).diagnostics_with_icc_profile_unmapped
            == totals.diagnostics_with_icc_profile_unmapped,
        totals.metadata_hint_count + summary.metadata_hint_count <= u64::MAX
            ==> totals.observed(summary).metadata_hint_count
            == totals.metadata_hint_count + summary.metadata_hint_count,
        totals.evidence_count + summary.evidence_count <= u64::MAX
            ==> totals.observed(summary).evidence_count
            == totals.evidence_count + summary.evidence_count,
        totals.warning_count + summary.warning_count <= u64::MAX
            ==> totals.observed(summary).warning_count
            == totals.warning_count + summary.warning_count,
        totals.multiple_metadata_hints + summary.multiple_metadata_hints <= u64::MAX
            ==> totals.observed(summary).multiple_metadata_hints
            == totals.multiple_metadata_hints + summary.multiple_metadata_hints,
        totals.ignored_metadata_hints + summary.ignored_metadata_hints <= u64::MAX
            ==> totals.observed(summary).ignored_metadata_hints
            == totals.ignored_metadata_hints + summary.ignored_metadata_hints,
        totals.metadata_hint_overrides_cicp_tags + summary.metadata_hint_overrides_cicp_tags <= u64::MAX ==> totals.observed(summary).metadata_hint_overrides_cicp_tags == totals.metadata_hint_overrides_cicp_tags + summary.metadata_hint_overrides_cicp_tags,
        totals.lower_priority_metadata_hints + summary.lower_priority_metadata_hints <= u64::MAX ==> totals.observed(summary).lower_priority_metadata_hints == totals.lower_priority_metadata_hints + summary.lower_priority_metadata_hints,
        totals.ignored_lower_priority_metadata_hints + summary.ignored_lower_priority_metadata_hints <= u64::MAX ==> totals.observed(summary).ignored_lower_priority_metadata_hints == totals.ignored_lower_priority_metadata_hints + summary.ignored_lower_priority_metadata_hints,
        totals.partial_cicp_tags + summary.partial_cicp_tags <= u64::MAX
            ==> totals.observed(summary).partial_cicp_tags
            == totals.partial_cicp_tags + summary.partial_cicp_tags,
        totals.missing_cicp_tags + summary.missing_cicp_tags <= u64::MAX
            ==> totals.observed(summary).missing_cicp_tags
            == totals.missing_cicp_tags + summary.missing_cicp_tags,
        totals.unsupported_cicp_tags + summary.unsupported_cicp_tags <= u64::MAX
            ==> totals.observed(summary).unsupported_cicp_tags
            == totals.unsupported_cicp_tags + summary.unsupported_cicp_tags,
        totals.decoder_unavailable + summary.decoder_unavailable <= u64::MAX
            ==> totals.observed(summary).decoder_unavailable
            == totals.decoder_unavailable + summary.decoder_unavailable,
        totals.hdr_side_data_count + summary.hdr_side_data_count <= u64::MAX
            ==> totals.observed(summary).hdr_side_data_count
            == totals.hdr_side_data_count + summary.hdr_side_data_count,
{
}

proof fn lemma_counted(list: Seq<ColorDoubt>, kind: DoubtKind)
    ensures
        count_of(list, kind) > 0 <==> exists|i: int|
            0 <= i < list.len() && is_of_kind(#[trigger] list[i], kind),
        count_of(list, kind) <= list.len(),
    decreases list.len(),
{
    if list.len() > 0 {
        let front = list.drop_last();
        lemma_counted(front, kind);
        if exists|i: int| 0 <= i < front.len() && is_of_kind(#[trigger] front[i], kind) {
            let i = choose|i: int| 0 <= i < front.len() && is_of_kind(#[trigger] front[i], kind);
            assert(is_of_kind(list[i], kind));
        }
        if is_of_kind(list.last(), kind) {
            assert(is_of_kind(list[list.len() - 1], kind));
        }
        if exists|i: int| 0 <= i < list.len() && is_of_kind(#[trigger] list[i], kind) {
            let i = choose|i: int| 0 <= i < list.len() && is_of_kind(#[trigger] list[i], kind);
            if i < front.len() {
                assert(is_of_kind(front[i], kind));
            }
        }
    }
}

/// A summary shows each doubt under its own name, and none that was not raised: a count is
/// positive exactly where a doubt of that kind stands among the warnings. Side data is
/// shown exactly where the stream has a record of its kind.
pub proof fn summaries_show_each_doubt(diagnostic: VideoColorDiagnostic, doubt: ColorDoubt)
    requires
        doubts(diagnostic.interpretation.warnings@).contains(doubt),
    ensures
        doubt is MultipleMetadataHints
            ==> diagnostic.spec_issue_summary().multiple_metadata_hints > 0,
        doubt is MetadataHintOverridesCicpTags
            ==> diagnostic.spec_issue_summary().metadata_hint_overrides_cicp_tags > 0,
        doubt is LowerPriorityMetadataHints
            ==> diagnostic.spec_issue_summary().lower_priority_metadata_hints > 0,
        doubt is PartialCicpTags ==> diagnostic.spec_issue_summary().partial_cicp_tags > 0,
        doubt is MissingCicpTags ==> diagnostic.spec_issue_summary().missing_cicp_tags > 0,
        doubt is UnsupportedCicpTags ==> diagnostic.spec_issue_summary().unsupported_cicp_tags > 0,
        doubt is DecoderUnavailable ==> diagnostic.spec_issue_summary().decoder_unavailable > 0,
        doubt is IccCicpMismatch ==> diagnostic.spec_issue_summary().icc_cicp_mismatch > 0,
        doubt is IccProfileUnmapped ==> diagnostic.spec_issue_summary().icc_profile_unmapped > 0,
        diagnostic.spec_issue_summary().has_user_visible_warnings,
        diagnostic.spec_issue_summary().warning_count == diagnostic.interpretation.warnings@.len()
            || diagnostic.interpretation.warnings@.len() > u64::MAX,
{
    let list = doubts(diagnostic.interpretation.warnings@);
    let i = choose|i: int| 0 <= i < list.len() && list[i] == doubt;
    lemma_counted(list, DoubtKind::MultipleMetadataHints);
    if doubt is MultipleMetadataHints {
        assert(is_of_kind(list[i], DoubtKind::MultipleMetadataHints));
    }
    lemma_counted(list, DoubtKind::MetadataHintOverridesCicpTags);
    if doubt is MetadataHintOverridesCicpTags {
        assert(is_of_kind(list[i], DoubtKind::MetadataHintOverridesCicpTags));
    }
    lemma_counted(list, DoubtKind::LowerPriorityMetadataHints);
    if doubt is LowerPriorityMetadataHints {
        assert(is_of_kind(list[i], DoubtKind::LowerPriorityMetadataHints));
    }
    lemma_counted(list, DoubtKind::PartialCicpTags);
    if doubt is PartialCicpTags {
        assert(is_of_kind(list[i], DoubtKind::PartialCicpTags));
    }
    lemma_counted(list, DoubtKind::MissingCicpTags);
    if doubt is MissingCicpTags {
        assert(is_of_kind(list[i], DoubtKind::MissingCicpTags));
    }
    lemma_counted(list, DoubtKind::UnsupportedCicpTags);
    if doubt is UnsupportedCicpTags {
        assert(is_of_kind(list[i], DoubtKind::UnsupportedCicpTags));
    }
    lemma_counted(list, DoubtKind::DecoderUnavailable);
    if doubt is DecoderUnavailable {
        assert(is_of_kind(list[i], DoubtKind::DecoderUnavailable));
    }
    lemma_counted(list, DoubtKind::IccCicpMismatch);
    if doubt is IccCicpMismatch {
        assert(is_of_kind(list[i], DoubtKind::IccCicpMismatch));
    }
    lemma_counted(list, DoubtKind::IccProfileUnmapped);
    if doubt is IccProfileUnmapped {
        assert(is_of_kind(list[i], DoubtKind::IccProfileUnmapped));
    }
}

/// A summary makes up no doubt: a kind that no warning has is counted as nothing.
pub proof fn summaries_make_up_no_doubt(diagnostic: VideoColorDiagnostic)
    ensures
        diagnostic.spec_issue_summary().multiple_metadata_hints > 0 ==> exists|i: int|
            0 <= i < diagnostic.interpretation.warnings@.len() && (
            #[trigger] doubts(diagnostic.interpretation.warnings@)[i]) is MultipleMetadataHints,
        diagnostic.spec_issue_summary().metadata_hint_overrides_cicp_tags > 0 ==> exists|i: int|
            0 <= i < diagnostic.interpretation.warnings@.len() && (
            #[trigger] doubts(diagnostic.interpretation.warnings@)[i]) is MetadataHintOverridesCicpTags,
        diagnostic.spec_issue_summary().lower_priority_metadata_hints > 0 ==> exists|i: int|
            0 <= i < diagnostic.interpretation.warnings@.len() && (
            #[trigger] doubts(diagnostic.interpretation.warnings@)[i]) is LowerPriorityMetadataHints,
        diagnostic.spec_issue_summary().partial_cicp_tags > 0 ==> exists|i: int|
            0 <= i < diagnostic.interpretation.warnings@.len() && (
            #[trigger] doubts(diagnostic.interpretation.warnings@)[i]) is PartialCicpTags,
        diagnostic.spec_issue_summary().missing_cicp_tags > 0 ==> exists|i: int|
            0 <= i < diagnostic.interpretation.warnings@.len() && (
            #[trigger] doubts(diagnostic.interpretation.warnings@)[i]) is MissingCicpTags,
        diagnostic.spec_issue_summary().unsupported_cicp_tags > 0 ==> exists|i: int|
            0 <= i < diagnostic.interpretation.warnings@.len() && (
            #[trigger] doubts(diagnostic.interpretation.warnings@)[i]) is UnsupportedCicpTags,
        diagnostic.spec_issue_summary().decoder_unavailable > 0 ==> exists|i: int|
            0 <= i < diagnostic.interpretation.warnings@.len() && (
            #[trigger] doubts(diagnostic.interpretation.warnings@)[i]) is DecoderUnavailable,
        diagnostic.spec_issue_summary().icc_cicp_mismatch > 0 ==> exists|i: int|
            0 <= i < diagnostic.interpretation.warnings@.len() && (
            #[trigger] doubts(diagnostic.interpretation.warnings@)[i]) is IccCicpMismatch,
        diagnostic.spec_issue_summary().icc_profile_unmapped > 0 ==> exists|i: int|
            0 <= i < diagnostic.interpretation.warnings@.len() && (
            #[trigger] doubts(diagnostic.interpretation.warnings@)[i]) is IccProfileUnmapped,
        diagnostic.spec_issue_summary().executable_color_space == diagnostic.executable,
        diagnostic.spec_issue_summary().confidence == diagnostic.interpretation.confidence,
        diagnostic.spec_issue_summary().method == diagnostic.interpretation.method,
        diagnostic.spec_issue_summary().source == diagnostic.interpretation.source,
        diagnostic.spec_issue_summary().has_raw_cicp_metadata <==> diagnostic.metadata is Some,
{
    let list = doubts(diagnostic.interpretation.warnings@);
    lemma_counted(list, DoubtKind::MultipleMetadataHints);
    lemma_counted(list, DoubtKind::MetadataHintOverridesCicpTags);
    lemma_counted(list, DoubtKind::LowerPriorityMetadataHints);
    lemma_counted(list, DoubtKind::PartialCicpTags);
    lemma_counted(list, DoubtKind::MissingCicpTags);
    lemma_counted(list, DoubtKind::UnsupportedCicpTags);
    lemma_counted(list, DoubtKind::DecoderUnavailable);
    lemma_counted(list, DoubtKind::IccCicpMismatch);
    lemma_counted(list, DoubtKind::IccProfileUnmapped);
}

/// A stream is shown to have side data of a kind exactly where one of its records has it.
pub proof fn summaries_show_side_data(diagnostic: VideoColorDiagnostic, i: int)
    requires
        0 <= i < diagnostic.hdr_metadata@.len(),
    ensures
        ({
            let summary = diagnostic.spec_issue_summary();
            let record = diagnostic.hdr_metadata@[i];
            &&& record.kind is MasteringDisplayMetadata ==> summary.has_mastering_display_metadata
            &&& record.kind is ContentLightLevel ==> summary.has_content_light_metadata
            &&& record.kind is DynamicHdr10Plus ==> summary.has_dynamic_hdr10_plus
            &&& record.kind is DolbyVisionConfig ==> summary.has_dolby_vision_config
            &&& record.kind is IccProfile ==> summary.has_icc_profile
            &&& diagnostic.hdr_metadata@.len() == 1 ==> {
                &&& summary.has_mastering_display_metadata
                    ==> record.kind is MasteringDisplayMetadata
                &&& summary.has_content_light_metadata ==> record.kind is ContentLightLevel
                &&& summary.has_dynamic_hdr10_plus ==> record.kind is DynamicHdr10Plus
                &&& summary.has_dolby_vision_config ==> record.kind is DolbyVisionConfig
                &&& summary.has_icc_profile ==> record.kind is IccProfile
            }
        }),
{
}

/// The name of a source of colour says which it is.
pub proof fn sources_are_named_after_themselves(source: VideoColorSpaceSource)
    ensures
        source is Metadata ==> source_name(source) == "Metadata"@,
        source is MissingMetadata ==> source_name(source) == "MissingMetadata"@,
        source is UnsupportedMetadata ==> source_name(source) == "UnsupportedMetadata"@,
        source is DecoderUnavailable ==> source_name(source) == "DecoderUnavailable"@,
{
}

/// The name of a method of detection says which it is.
pub proof fn methods_are_named_after_themselves(method: VideoColorDetectionMethod)
    ensures
        method is MetadataHint ==> method_name(method) == "MetadataHint"@,
        method is IccProfile ==> method_name(method) == "IccProfile"@,
        method is CicpTags ==> method_name(method) == "CicpTags"@,
        method is MissingMetadata ==> method_name(method) == "MissingMetadata"@,
        method is UnsupportedCicpTags ==> method_name(method) == "UnsupportedCicpTags"@,
        method is DecoderUnavailable ==> method_name(method) == "DecoderUnavailable"@,
{
}

/// The name of a range says which it is.
pub proof fn ranges_are_named_after_themselves(range: DecodedVideoRange)
    ensures
        range is Unknown ==> range_name(range) == "Unknown"@,
        range is Limited ==> range_name(range) == "Limited"@,
        range is Full ==> range_name(range) == "Full"@,
{
}

/// The name of a confidence says which it is.
pub proof fn confidences_are_named_after_themselves(confidence: VideoColorInterpretationConfidence)
    ensures
        confidence is High ==> confidence_name(confidence) == "High"@,
        confidence is Medium ==> confidence_name(confidence) == "Medium"@,
        confidence is Low ==> confidence_name(confidence) == "Low"@,
        confidence is Absent ==> confidence_name(confidence) == "None"@,
{
}

/// Totals that nothing was added to yet count nothing: after the first diagnostic, no counter
/// is beyond one and no total beyond what that diagnostic brings.
pub proof fn totals_begin_with_nothing(summary: VideoColorDiagnosticIssueSummary)
    ensures
        VideoColorDiagnosticIssueAggregate::nothing().observed(summary).diagnostics == 1,
        VideoColorDiagnosticIssueAggregate::nothing().diagnostics == 0,
        VideoColorDiagnosticIssueAggregate::nothing().diagnostics_with_executable_color_space == 0,
        VideoColorDiagnosticIssueAggregate::nothing().diagnostics_with_warnings == 0,
        VideoColorDiagnosticIssueAggregate::nothing().diagnostics_with_raw_cicp_metadata == 0,
        VideoColorDiagnosticIssueAggregate::nothing().diagnostics_with_metadata_hints == 0,
        VideoColorDiagnosticIssueAggregate::nothing().diagnostics_with_hdr_metadata == 0,
        VideoColorDiagnosticIssueAggregate::nothing().method_metadata_hint == 0,
        VideoColorDiagnosticIssueAggregate::nothing().method_icc_profile == 0,
        VideoColorDiagnosticIssueAggregate::nothing().method_cicp_tags == 0,
        VideoColorDiagnosticIssueAggregate::nothing().method_missing_metadata == 0,
        VideoColorDiagnosticIssueAggregate::nothing().method_unsupported_cicp_tags == 0,
        VideoColorDiagnosticIssueAggregate::nothing().method_decoder_unavailable == 0,
        VideoColorDiagnosticIssueAggregate::nothing().confidence_high == 0,
        VideoColorDiagnosticIssueAggregate::nothing().confidence_medium == 0,
        VideoColorDiagnosticIssueAggregate::nothing().confidence_low == 0,
        VideoColorDiagnosticIssueAggregate::nothing().confidence_none == 0,
        VideoColorDiagnosticIssueAggregate::nothing().metadata_hint_count == 0,
        VideoColorDiagnosticIssueAggregate::nothing().evidence_count == 0,
        VideoColorDiagnosticIssueAggregate::nothing().warning_count == 0,
        VideoColorDiagnosticIssueAggregate::nothing().multiple_metadata_hints == 0,
        VideoColorDiagnosticIssueAggregate::nothing().ignored_metadata_hints == 0,
        VideoColorDiagnosticIssueAggregate::nothing().metadata_hint_overrides_cicp_tags == 0,
        VideoColorDiagnosticIssueAggregate::nothing().lower_priority_metadata_hints == 0,
        VideoColorDiagnosticIssueAggregate::nothing().ignored_lower_priority_metadata_hints == 0,
        VideoColorDiagnosticIssueAggregate::nothing().partial_cicp_tags == 0,
        VideoColorDiagnosticIssueAggregate::nothing().missing_cicp_tags == 0,
        VideoColorDiagnosticIssueAggregate::nothing().unsupported_cicp_tags == 0,
        VideoColorDiagnosticIssueAggregate::nothing().decoder_unavailable == 0,
        VideoColorDiagnosticIssueAggregate::nothing().hdr_side_data_count == 0,
        VideoColorDiagnosticIssueAggregate::nothing().diagnostics_with_mastering_display_metadata == 0,
        VideoColorDiagnosticIssueAggregate::nothing().diagnostics_with_content_light_metadata == 0,
        VideoColorDiagnosticIssueAggregate::nothing().diagnostics_with_dynamic_hdr10_plus == 0,
        VideoColorDiagnosticIssueAggregate::nothing().diagnostics_with_dolby_vision_config == 0,
        VideoColorDiagnosticIssueAggregate::nothing().diagnostics_with_icc_profile == 0,
        VideoColorDiagnosticIssueAggregate::nothing().diagnostics_with_icc_cicp_mismatch == 0,
        VideoColorDiagnosticIssueAggregate::nothing().diagnostics_with_icc_profile_unmapped == 0,
{
}

} // verus!
