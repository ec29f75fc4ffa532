//! Vocabulary of preview decode: what callers want, and what became of it.

use crate::decoder::backend::HwAccelProbe;
use crate::decoder::surface::DecodedFrameResidency;
use vstd::prelude::*;

verus! {

/// Backend that decodes previews.
#[derive(Debug, Clone, Copy, PartialEq, Eq, Structural, Default)]
pub enum PreviewDecodeBackend {
    /// The normal decode session in this process.
    #[default]
    Auto,
    /// The same, but always without hardware.
    Software,
    /// An external process that may use hardware, but always returns bytes in main memory.
    ExternalFfmpegCpuRgba,
}

/// The backend that decodes previews: the normal one, always.
pub fn preview_decode_backend() -> (r: PreviewDecodeBackend)
    ensures
        r is Auto,
{
    PreviewDecodeBackend::Auto
}

/// The way on which a preview frame was produced.
#[derive(Debug, Clone, Copy, PartialEq, Eq, Structural)]
pub enum PreviewDecodePath {
    /// Decoded and scaled to 8-bit RGBA.
    InProcessFfmpegCpuRgba,
    /// Decoded to scene-linear float RGBA.
    InProcessFfmpegCpuFloat,
    /// Developed from camera RAW to scene-linear float RGBA.
    InProcessCameraRawDng,
    /// Decoded to compact YUV planes.
    InProcessFfmpegCpuYuv,
    /// Decoded to a native hardware surface.
    InProcessFfmpegNative,
    /// Decoded by an external process.
    ExternalFfmpegCpuRgba,
    /// Taken from the frames that a playback session keeps.
    PlaybackSessionRingHit,
}

impl PreviewDecodePath {
    /// Stable path name for telemetry.
    pub open spec fn spec_name(self) -> Seq<char> {
        match self {
            PreviewDecodePath::InProcessFfmpegCpuRgba => "InProcessFfmpegCpuRgba"@,
            PreviewDecodePath::InProcessFfmpegCpuFloat => "InProcessFfmpegCpuFloat"@,
            PreviewDecodePath::InProcessCameraRawDng => "InProcessCameraRawDng"@,
            PreviewDecodePath::InProcessFfmpegCpuYuv => "InProcessFfmpegCpuYuv"@,
            PreviewDecodePath::InProcessFfmpegNative => "InProcessFfmpegNative"@,
            PreviewDecodePath::ExternalFfmpegCpuRgba => "ExternalFfmpegCpuRgba"@,
            PreviewDecodePath::PlaybackSessionRingHit => "PlaybackSessionRingHit"@,
        }
    }

    /// Stable path name for telemetry.
    pub fn as_str(self) -> (name: &'static str)
        ensures
            name@ == self.spec_name(),
    {
        match self {
            PreviewDecodePath::InProcessFfmpegCpuRgba => "InProcessFfmpegCpuRgba",
            PreviewDecodePath::InProcessFfmpegCpuFloat => "InProcessFfmpegCpuFloat",
            PreviewDecodePath::InProcessCameraRawDng => "InProcessCameraRawDng",
            PreviewDecodePath::InProcessFfmpegCpuYuv => "InProcessFfmpegCpuYuv",
            PreviewDecodePath::InProcessFfmpegNative => "InProcessFfmpegNative",
            PreviewDecodePath::ExternalFfmpegCpuRgba => "ExternalFfmpegCpuRgba",
            PreviewDecodePath::PlaybackSessionRingHit => "PlaybackSessionRingHit",
        }
    }
}

/// What became of the decode session of a frame.
#[derive(Debug, Clone, Copy, PartialEq, Eq, Hash, Structural, Default)]
pub enum PreviewDecodeSessionDisposition {
    /// Nothing is known.
    #[default]
    Unspecified,
    /// There was none, and one was opened.
    Opened,
    /// One did not fit, and was replaced.
    Replaced,
    /// A fitting one was reused.
    Reused,
    /// None was needed.
    BypassedCache,
}

/// Access pattern of a preview request.
#[derive(Debug, Clone, Copy, PartialEq, Eq, Hash, Structural)]
pub enum PreviewDecodeAccessMode {
    /// Mostly forward, for sustained playback.
    PlaybackCursor,
    /// The latest request wins, for dragging the playhead.
    ScrubCursor,
    /// Exact single frames, for thumbnails and export.
    RandomAccessStillFrame,
}

impl PreviewDecodeAccessMode {
    /// Stable access-mode name for telemetry.
    pub open spec fn spec_name(self) -> Seq<char> {
        match self {
            PreviewDecodeAccessMode::PlaybackCursor => "PlaybackCursor"@,
            PreviewDecodeAccessMode::ScrubCursor => "ScrubCursor"@,
            PreviewDecodeAccessMode::RandomAccessStillFrame => "RandomAccessStillFrame"@,
        }
    }

    /// Stable access-mode name for telemetry.
    pub fn as_str(self) -> (name: &'static str)
        ensures
            name@ == self.spec_name(),
    {
        match self {
            PreviewDecodeAccessMode::PlaybackCursor => "PlaybackCursor",
            PreviewDecodeAccessMode::ScrubCursor => "ScrubCursor",
            PreviewDecodeAccessMode::RandomAccessStillFrame => "RandomAccessStillFrame",
        }
    }
}

/// How a seek goes about it.
#[derive(Debug, Clone, Copy, PartialEq, Eq, Structural, Default)]
pub enum PreviewDecodeSeekStrategy {
    /// To a keyframe before the target, and forward from there.
    #[default]
    KeyframeBefore,
    /// Close to the target, to any frame.
    BoundedAnyFrame,
}

impl PreviewDecodeSeekStrategy {
    /// Stable seek strategy name for telemetry.
    pub open spec fn spec_name(self) -> Seq<char> {
        match self {
            PreviewDecodeSeekStrategy::KeyframeBefore => "KeyframeBefore"@,
            PreviewDecodeSeekStrategy::BoundedAnyFrame => "BoundedAnyFrame"@,
        }
    }

    /// Stable seek strategy name for telemetry.
    pub fn as_str(self) -> (name: &'static str)
        ensures
            name@ == self.spec_name(),
    {
        match self {
            PreviewDecodeSeekStrategy::KeyframeBefore => "KeyframeBefore",
            PreviewDecodeSeekStrategy::BoundedAnyFrame => "BoundedAnyFrame",
        }
    }
}

/// Where knowledge of keyframes comes from.
#[derive(Debug, Clone, Copy, PartialEq, Eq, Structural, Default)]
pub enum PreviewSeekIndexSource {
    /// There is none.
    #[default]
    Absent,
    /// From packets that the session has read.
    SessionObserved,
    /// From the index of the container.
    ProbeBacked,
}

/// Pressure on scrubbing, as the caller sees it.
#[derive(Debug, Clone, Copy, PartialEq, Eq, Structural, Default)]
pub enum PreviewScrubAdaptiveClass {
    #[default]
    Normal,
    /// Requests cluster in one region.
    HotRegion,
    /// Decodes took longer than interaction allows.
    SlowLatency,
    /// They recovered, with caution.
    Recovery,
}

/// Direction of playback.
#[derive(Debug, Clone, Copy, PartialEq, Eq, Structural, Default)]
pub enum PreviewPlaybackDirection {
    #[default]
    Forward,
    Reverse,
}

/// Tuning of a decode that does not change which frame is meant.
#[derive(Debug, Clone, Copy, PartialEq, Eq, Structural)]
pub struct PreviewDecodeAdaptiveHints {
    pub scrub_class: PreviewScrubAdaptiveClass,
    pub playback_direction: PreviewPlaybackDirection,
}

impl Default for PreviewDecodeAdaptiveHints {
    fn default() -> (r: PreviewDecodeAdaptiveHints)
        ensures
            r.scrub_class is Normal,
            r.playback_direction is Forward,
    {
        PreviewDecodeAdaptiveHints {
            scrub_class: PreviewScrubAdaptiveClass::Normal,
            playback_direction: PreviewPlaybackDirection::Forward,
        }
    }
}

/// What a caller wants of hardware decode.
#[derive(Debug, Clone, Copy, PartialEq, Eq, Structural, Default)]
pub enum PreviewHardwareDecodeRequest {
    /// Nothing in particular.
    #[default]
    Auto,
    /// Hardware decode, even if frames come back to main memory.
    PreferHardwareDecode,
    /// Frames that stay on the GPU, if possible.
    PreferGpuResident,
    /// Frames that stay on the GPU, or a failure.
    RequireGpuResident,
}

impl PreviewHardwareDecodeRequest {
    /// Whether frames should stay on the GPU.
    pub fn prefers_gpu_residency(self) -> (r: bool)
        ensures
            r == (self is PreferGpuResident || self is RequireGpuResident),
    {
        match self {
            PreviewHardwareDecodeRequest::PreferGpuResident
            | PreviewHardwareDecodeRequest::RequireGpuResident => true,
            PreviewHardwareDecodeRequest::Auto
            | PreviewHardwareDecodeRequest::PreferHardwareDecode => false,
        }
    }

    /// Whether frames have to stay on the GPU.
    pub fn requires_gpu_residency(self) -> (r: bool)
        ensures
            r == (self is RequireGpuResident),
    {
        self == PreviewHardwareDecodeRequest::RequireGpuResident
    }
}

/// Hardware frames beyond those that a decoder needs: readers of native frames hold some.
pub fn preview_hardware_extra_frames(request: PreviewHardwareDecodeRequest) -> (r: i32)
    ensures
        r == (if request is PreferGpuResident || request is RequireGpuResident {
            32int
        } else {
            0
        }),
{
    if request.prefers_gpu_residency() {
        32
    } else {
        0
    }
}

/// What was chosen of hardware decode.
#[derive(Debug, Clone, Copy, PartialEq, Eq, Structural, Default)]
pub enum PreviewHardwareDecodeDecision {
    /// It was not asked for.
    #[default]
    CpuRgbaNotRequested,
    /// There is no adapter for it.
    CpuRgbaHardwareUnavailable,
    /// The backend cannot keep frames on the GPU.
    CpuRgbaBackendUnavailable,
    /// The codec has no configuration for it.
    CpuRgbaCodecUnsupported,
    /// The backend only returns bytes in main memory.
    CpuRgbaBackendBoundary,
    /// It is active, and frames come back to main memory.
    HardwareDecodeCpuTransfer,
    /// It is active, and frames stay on the GPU.
    GpuResidentNative,
}

/// State of hardware decode whose frames come back to main memory.
#[derive(Debug, Clone, Copy, PartialEq, Eq, Structural, Default)]
pub enum PreviewHardwareDecodeCpuTransferStatus {
    #[default]
    NotAttempted,
    /// It is set up, and no frame was seen yet.
    ConfiguredAwaitingFrame,
    /// The device could not be set up.
    SetupFailed,
    /// The decoder did not open with it.
    DecoderOpenFailed,
    /// A frame came back.
    Observed,
}

/// What keeps decoded frames from the GPU.
#[derive(Debug, Clone, Copy, PartialEq, Eq, Structural, Default)]
pub enum PreviewHardwareDecodeBlocker {
    /// Nothing.
    #[default]
    Absent,
    /// Frames are returned in main memory.
    TextureResidencyNotConnected,
    /// The decoder named no handle family.
    GpuHandleMissing,
}

/// Why a frame that should stay on the GPU did not.
#[derive(Debug, Clone, Copy, PartialEq, Eq, Structural)]
pub enum PreviewNativeDecodeFallback {
    /// The decoder returned a software frame.
    SoftwareFrame,
    /// Its pixel format has no adapter.
    ResourceAdapterUnavailable,
    /// Its surface format is not clear.
    SurfaceFormatUnavailable,
    /// Its sampling is not clear.
    SamplingMetadataIncomplete,
    /// It could not be kept.
    ResourceRetentionFailed,
    /// Hardware decode failed, and software took over.
    RuntimeHardwareFailure,
}

/// What keeps decoded frames from the GPU, by what a probe says.
pub open spec fn blocker_of(probe: HwAccelProbe) -> PreviewHardwareDecodeBlocker {
    if probe.hardware_decode_active && probe.zero_copy_active && probe.gpu_frame_handle_kind is Some {
        PreviewHardwareDecodeBlocker::Absent
    } else if probe.frame_residency is CpuRgba {
        PreviewHardwareDecodeBlocker::TextureResidencyNotConnected
    } else if probe.gpu_frame_handle_kind is None {
        PreviewHardwareDecodeBlocker::GpuHandleMissing
    } else {
        PreviewHardwareDecodeBlocker::Absent
    }
}

impl PreviewHardwareDecodeBlocker {
    /// What keeps decoded frames from the GPU, by what a probe says.
    pub fn from_probe(probe: &HwAccelProbe) -> (r: PreviewHardwareDecodeBlocker)
        ensures
            r == blocker_of(*probe),
    {
        if probe.hardware_decode_active && probe.zero_copy_active
            && probe.gpu_frame_handle_kind.is_some() {
            return PreviewHardwareDecodeBlocker::Absent;
        }
        if probe.frame_residency == DecodedFrameResidency::CpuRgba {
            return PreviewHardwareDecodeBlocker::TextureResidencyNotConnected;
        }
        if probe.gpu_frame_handle_kind.is_none() {
            return PreviewHardwareDecodeBlocker::GpuHandleMissing;
        }
        PreviewHardwareDecodeBlocker::Absent
    }
}

/// On every platform frames are returned in main memory, so that is what blocks.
pub proof fn closed_probes_are_blocked(probe: HwAccelProbe, platform: crate::decoder::backend::Platform)
    requires
        crate::decoder::backend::probes_closed(probe, platform),
    ensures
        blocker_of(probe) is TextureResidencyNotConnected,
{
}

/// The name of a way says which it is.
pub proof fn paths_are_named_after_themselves(path: PreviewDecodePath)
    ensures
        path is InProcessFfmpegCpuRgba ==> path.spec_name() == "InProcessFfmpegCpuRgba"@,
        path is InProcessFfmpegCpuFloat ==> path.spec_name() == "InProcessFfmpegCpuFloat"@,
        path is InProcessCameraRawDng ==> path.spec_name() == "InProcessCameraRawDng"@,
        path is InProcessFfmpegCpuYuv ==> path.spec_name() == "InProcessFfmpegCpuYuv"@,
        path is InProcessFfmpegNative ==> path.spec_name() == "InProcessFfmpegNative"@,
        path is ExternalFfmpegCpuRgba ==> path.spec_name() == "ExternalFfmpegCpuRgba"@,
        path is PlaybackSessionRingHit ==> path.spec_name() == "PlaybackSessionRingHit"@,
{
}

/// The name of an access mode says which it is.
pub proof fn modes_are_named_after_themselves(mode: PreviewDecodeAccessMode)
    ensures
        mode is PlaybackCursor ==> mode.spec_name() == "PlaybackCursor"@,
        mode is ScrubCursor ==> mode.spec_name() == "ScrubCursor"@,
        mode is RandomAccessStillFrame ==> mode.spec_name() == "RandomAccessStillFrame"@,
{
}

/// The name of a seek strategy says which it is.
pub proof fn strategies_are_named_after_themselves(strategy: PreviewDecodeSeekStrategy)
    ensures
        strategy is KeyframeBefore ==> strategy.spec_name() == "KeyframeBefore"@,
        strategy is BoundedAnyFrame ==> strategy.spec_name() == "BoundedAnyFrame"@,
{
}

/// Nothing blocks frames from the GPU where hardware decodes them without a copy to a handle.
/// Otherwise frames in main memory tell that they are not connected, and a frame without a
/// handle tells that.
pub proof fn blockers_tell_what_is_missing(probe: HwAccelProbe)
    ensures
        probe.hardware_decode_active && probe.zero_copy_active && probe.gpu_frame_handle_kind is Some
            ==> blocker_of(probe) is Absent,
        !probe.zero_copy_active && probe.frame_residency is CpuRgba ==> blocker_of(
            probe,
        ) is TextureResidencyNotConnected,
        !probe.hardware_decode_active && probe.frame_residency is CpuRgba ==> blocker_of(
            probe,
        ) is TextureResidencyNotConnected,
        !(probe.frame_residency is CpuRgba) ==> (blocker_of(probe) is GpuHandleMissing
            <==> probe.gpu_frame_handle_kind is None),
        blocker_of(probe) is Absent ==> probe.gpu_frame_handle_kind is Some,
{
}

} // verus!