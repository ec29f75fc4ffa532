//! Diagnostics of a decoded preview frame: what was asked for, which way it took, and what
//! that took.

use crate::decoder::backend::{
    DecodedGpuFrameHandleKind, HwAccelBackend, HwAccelCodecConfigProbe, HwAccelDeviceContextProbe,
    HwAccelPixelFormat, HwAccelProbe,
};
use crate::decoder::range::{DecodedVideoRange, DecodedVideoSampling};
use crate::decoder::surface::{
    DecodedFrameResidency, DecodedVideoChromaLocation, DecodedVideoMatrix,
    DecodedVideoSurfaceFormat,
};
use crate::preview::access::{mode_policy, PreviewDecodeAccessPolicy};
use crate::preview::temporal::{
    approximates, lasting, point, temporal_selection_is_approximate, DecodedTemporalExtent,
    PreviewDecodeTemporalSelection, PreviewTemporalExtentSource,
};
use crate::preview::threading::PreviewDecodeThreadingKind;
use crate::preview::vocabulary::{
    blocker_of, PreviewDecodeAccessMode, PreviewDecodePath, PreviewDecodeSeekStrategy,
    PreviewDecodeSessionDisposition, PreviewHardwareDecodeBlocker,
    PreviewHardwareDecodeCpuTransferStatus, PreviewHardwareDecodeDecision,
    PreviewHardwareDecodeRequest, PreviewNativeDecodeFallback, PreviewScrubAdaptiveClass,
    PreviewSeekIndexSource,
};
use vstd::prelude::*;

verus! {

/// Microseconds that the stages of a decode took.
#[derive(Debug, Clone, Copy, PartialEq, Eq, Structural)]
pub struct PreviewDecodeStageDurations {
    /// Opening or changing the session.
    pub session_open_us: u64,
    /// Waiting for readers of native frames.
    pub output_lease_wait_us: u64,
    /// Looking into the frames that the session keeps.
    pub cache_lookup_us: u64,
    pub seek_us: u64,
    pub packet_decode_us: u64,
    /// Bringing hardware frames back to main memory.
    pub hardware_transfer_us: u64,
    /// Scaling and conversion of pixels.
    pub swscale_us: u64,
    pub rgba_copy_us: u64,
    /// Waiting for an external process.
    pub external_process_us: u64,
}

/// Stages that took no time.
pub open spec fn no_time() -> PreviewDecodeStageDurations {
    PreviewDecodeStageDurations {
        session_open_us: 0,
        output_lease_wait_us: 0,
        cache_lookup_us: 0,
        seek_us: 0,
        packet_decode_us: 0,
        hardware_transfer_us: 0,
        swscale_us: 0,
        rgba_copy_us: 0,
        external_process_us: 0,
    }
}

impl Default for PreviewDecodeStageDurations {
    fn default() -> (r: PreviewDecodeStageDurations)
        ensures
            r == no_time(),
    {
        PreviewDecodeStageDurations {
            session_open_us: 0,
            output_lease_wait_us: 0,
            cache_lookup_us: 0,
            seek_us: 0,
            packet_decode_us: 0,
            hardware_transfer_us: 0,
            swscale_us: 0,
            rgba_copy_us: 0,
            external_process_us: 0,
        }
    }
}

/// The times of two decodes together, as far as they can be counted.
pub open spec fn times_added(
    a: PreviewDecodeStageDurations,
    b: PreviewDecodeStageDurations,
) -> PreviewDecodeStageDurations {
    PreviewDecodeStageDurations {
        session_open_us: a.session_open_us.saturating_add(b.session_open_us),
        output_lease_wait_us: a.output_lease_wait_us.saturating_add(b.output_lease_wait_us),
        cache_lookup_us: a.cache_lookup_us.saturating_add(b.cache_lookup_us),
        seek_us: a.seek_us.saturating_add(b.seek_us),
        packet_decode_us: a.packet_decode_us.saturating_add(b.packet_decode_us),
        hardware_transfer_us: a.hardware_transfer_us.saturating_add(b.hardware_transfer_us),
        swscale_us: a.swscale_us.saturating_add(b.swscale_us),
        rgba_copy_us: a.rgba_copy_us.saturating_add(b.rgba_copy_us),
        external_process_us: a.external_process_us.saturating_add(b.external_process_us),
    }
}

impl PreviewDecodeStageDurations {
    /// Adds the times of another decode.
    pub fn accumulate(&mut self, other: PreviewDecodeStageDurations)
        ensures
            *final(self) == times_added(*old(self), other),
    {
        self.session_open_us = self.session_open_us.saturating_add(other.session_open_us);
        self.output_lease_wait_us =
            self.output_lease_wait_us.saturating_add(other.output_lease_wait_us);
        self.cache_lookup_us = self.cache_lookup_us.saturating_add(other.cache_lookup_us);
        self.seek_us = self.seek_us.saturating_add(other.seek_us);
        self.packet_decode_us = self.packet_decode_us.saturating_add(other.packet_decode_us);
        self.hardware_transfer_us =
            self.hardware_transfer_us.saturating_add(other.hardware_transfer_us);
        self.swscale_us = self.swscale_us.saturating_add(other.swscale_us);
        self.rgba_copy_us = self.rgba_copy_us.saturating_add(other.rgba_copy_us);
        self.external_process_us =
            self.external_process_us.saturating_add(other.external_process_us);
    }
}

/// Microseconds of a duration, as far as 64 bits hold them.
pub open spec fn counted_us(micros: u128) -> u64 {
    if micros > u64::MAX {
        u64::MAX
    } else {
        micros as u64
    }
}

/// Microseconds of a duration, as far as 64 bits hold them.
pub fn duration_us(micros: u128) -> (r: u64)
    ensures
        r == counted_us(micros),
{
    if micros > 0xffff_ffff_ffff_ffff {
        u64::MAX
    } else {
        micros as u64
    }
}

/// Sampling of which nothing is known.
pub open spec fn unknown_sampling() -> DecodedVideoSampling {
    DecodedVideoSampling {
        matrix: DecodedVideoMatrix::Unknown,
        range: DecodedVideoRange::Unknown,
        chroma_location: DecodedVideoChromaLocation::Unknown,
        bit_depth: 0,
    }
}

/// Diagnostics of a decoded preview frame.
#[derive(Debug, Clone, Copy, PartialEq, Eq, Structural)]
pub struct PreviewDecodeDiagnostics {
    /// The way on which the frame was produced.
    pub path: PreviewDecodePath,
    /// Microseconds of the whole decode.
    pub elapsed_us: u64,
    /// It came from the frames that the session keeps.
    pub cache_hit: bool,
    /// Access pattern of the request.
    pub access_mode: PreviewDecodeAccessMode,
    /// An external process decoded it.
    pub external_process: bool,
    /// It is in main memory.
    pub cpu_resident: bool,
    pub seek_performed: bool,
    pub requested_pts: Option<i64>,
    /// Timestamp of the frame that is shown.
    pub selected_pts: Option<i64>,
    /// How long it is shown.
    pub selected_duration_pts: Option<i64>,
    pub selected_temporal_extent_source: PreviewTemporalExtentSource,
    /// Another frame than the requested one is shown on purpose.
    pub temporal_approximation: bool,
    pub seek_strategy: PreviewDecodeSeekStrategy,
    pub forward_reuse_frame_window: i64,
    pub forward_decode_budget_frames: u32,
    pub any_seek_window_ms: u64,
    pub scrub_adaptive_class: PreviewScrubAdaptiveClass,
    pub hardware_decode_request: PreviewHardwareDecodeRequest,
    pub hardware_decode_decision: PreviewHardwareDecodeDecision,
    /// Backend that the platform prefers.
    pub hardware_decode_candidate_backend: Option<HwAccelBackend>,
    pub hardware_decode_candidate_handle_kind: Option<DecodedGpuFrameHandleKind>,
    pub hardware_decode_adapter_available: bool,
    pub hardware_decode_ffmpeg_device_type_available: bool,
    pub hardware_decode_ffmpeg_codec_config_available: bool,
    pub hardware_decode_ffmpeg_hw_pixel_format: Option<HwAccelPixelFormat>,
    pub hardware_decode_ffmpeg_device_context_attempted: bool,
    pub hardware_decode_ffmpeg_device_context_created: bool,
    pub hardware_decode_ffmpeg_device_context_error_code: Option<i32>,
    pub hardware_decode_cpu_transfer_configured: bool,
    pub hardware_decode_cpu_transfer_observed: bool,
    pub hardware_decode_cpu_transfer_status: PreviewHardwareDecodeCpuTransferStatus,
    pub session_disposition: PreviewDecodeSessionDisposition,
    /// The session ran forward, without a seek.
    pub forward_reused: bool,
    /// Keyframes are known.
    pub seek_index_available: bool,
    /// How many.
    pub seek_index_keyframes: u32,
    /// Packets that were read to know them.
    pub seek_index_observed_packets: u32,
    pub seek_index_source: PreviewSeekIndexSource,
    /// A known keyframe bounded the seek.
    pub seek_index_used: bool,
    /// Its timestamp.
    pub seek_index_anchor_pts: Option<i64>,
    /// Frames that were decoded for this one.
    pub decoded_frame_count: u32,
    pub threading_kind: PreviewDecodeThreadingKind,
    pub threading_count: u32,
    pub stage_durations: PreviewDecodeStageDurations,
    pub hw_accel_backend: HwAccelBackend,
    pub hardware_decode_active: bool,
    pub zero_copy_active: bool,
    /// Where the frame is.
    pub decoded_frame_residency: DecodedFrameResidency,
    pub gpu_frame_handle_kind: Option<DecodedGpuFrameHandleKind>,
    /// What keeps the frame from the GPU.
    pub hardware_decode_blocker: PreviewHardwareDecodeBlocker,
    /// Why a frame that should stay on the GPU did not.
    pub native_decode_fallback: Option<PreviewNativeDecodeFallback>,
    /// Surface format before any conversion.
    pub decoded_surface_format: DecodedVideoSurfaceFormat,
    /// Sampling before any conversion.
    pub decoded_video_sampling: DecodedVideoSampling,
}

/// Diagnostics of a frame of which only the way is known.
pub open spec fn fresh_diagnostics(path: PreviewDecodePath) -> PreviewDecodeDiagnostics {
    PreviewDecodeDiagnostics {
        path,
        elapsed_us: 0,
        cache_hit: path is PlaybackSessionRingHit,
        access_mode: PreviewDecodeAccessMode::RandomAccessStillFrame,
        external_process: path is ExternalFfmpegCpuRgba,
        cpu_resident: !(path is InProcessFfmpegNative),
        seek_performed: false,
        requested_pts: None,
        selected_pts: None,
        selected_duration_pts: None,
        selected_temporal_extent_source: PreviewTemporalExtentSource::Unknown,
        temporal_approximation: false,
        seek_strategy: PreviewDecodeSeekStrategy::KeyframeBefore,
        forward_reuse_frame_window: 0,
        forward_decode_budget_frames: 0,
        any_seek_window_ms: 0,
        scrub_adaptive_class: PreviewScrubAdaptiveClass::Normal,
        hardware_decode_request: PreviewHardwareDecodeRequest::Auto,
        hardware_decode_decision: PreviewHardwareDecodeDecision::CpuRgbaNotRequested,
        hardware_decode_candidate_backend: None,
        hardware_decode_candidate_handle_kind: None,
        hardware_decode_adapter_available: false,
        hardware_decode_ffmpeg_device_type_available: false,
        hardware_decode_ffmpeg_codec_config_available: false,
        hardware_decode_ffmpeg_hw_pixel_format: None,
        hardware_decode_ffmpeg_device_context_attempted: false,
        hardware_decode_ffmpeg_device_context_created: false,
        hardware_decode_ffmpeg_device_context_error_code: None,
        hardware_decode_cpu_transfer_configured: false,
        hardware_decode_cpu_transfer_observed: false,
        hardware_decode_cpu_transfer_status: PreviewHardwareDecodeCpuTransferStatus::NotAttempted,
        session_disposition: PreviewDecodeSessionDisposition::Unspecified,
        forward_reused: false,
        seek_index_available: false,
        seek_index_keyframes: 0,
        seek_index_observed_packets: 0,
        seek_index_source: PreviewSeekIndexSource::Absent,
        seek_index_used: false,
        seek_index_anchor_pts: None,
        decoded_frame_count: 0,
        threading_kind: PreviewDecodeThreadingKind::Absent,
        threading_count: 0,
        stage_durations: no_time(),
        hw_accel_backend: HwAccelBackend::Absent,
        hardware_decode_active: false,
        zero_copy_active: false,
        decoded_frame_residency: DecodedFrameResidency::CpuRgba,
        gpu_frame_handle_kind: None,
        hardware_decode_blocker: PreviewHardwareDecodeBlocker::TextureResidencyNotConnected,
        native_decode_fallback: None,
        decoded_surface_format: DecodedVideoSurfaceFormat::Unknown,
        decoded_video_sampling: unknown_sampling(),
    }
}

/// The work that produced a frame, as far as it is proven. It stays with the frame
/// wherever the frame is kept.
#[derive(Debug, Clone, Copy, PartialEq, Eq, Structural)]
pub enum PreviewDecodeExecutionPath {
    SoftwareCpu,
    HardwareCpuTransfer {
        backend: HwAccelBackend,
        surface: DecodedVideoSurfaceFormat,
        sampling: DecodedVideoSampling,
    },
    HardwareNative {
        backend: HwAccelBackend,
        handle_kind: DecodedGpuFrameHandleKind,
        surface: DecodedVideoSurfaceFormat,
        sampling: DecodedVideoSampling,
    },
}

/// Whether diagnostics prove a frame that stayed on the GPU.
pub open spec fn proves_native(d: PreviewDecodeDiagnostics) -> bool {
    &&& d.gpu_frame_handle_kind is Some
    &&& d.hardware_decode_decision is GpuResidentNative
    &&& d.hardware_decode_active
    &&& d.zero_copy_active
    &&& d.decoded_frame_residency is GpuTexture
}

/// The work that diagnostics prove.
pub open spec fn proven_path(d: PreviewDecodeDiagnostics) -> PreviewDecodeExecutionPath {
    if proves_native(d) {
        PreviewDecodeExecutionPath::HardwareNative {
            backend: d.hw_accel_backend,
            handle_kind: d.gpu_frame_handle_kind->0,
            surface: d.decoded_surface_format,
            sampling: d.decoded_video_sampling,
        }
    } else if d.hardware_decode_cpu_transfer_observed && d.hardware_decode_active {
        PreviewDecodeExecutionPath::HardwareCpuTransfer {
            backend: d.hw_accel_backend,
            surface: d.decoded_surface_format,
            sampling: d.decoded_video_sampling,
        }
    } else {
        PreviewDecodeExecutionPath::SoftwareCpu
    }
}

/// The temporal identity that diagnostics establish: a positive interval with evidence,
/// within 64 bits.
pub open spec fn temporal_identity(d: PreviewDecodeDiagnostics) -> Option<
    PreviewDecodeTemporalSelection,
> {
    match (d.requested_pts, d.selected_pts, d.selected_duration_pts) {
        (Some(requested), Some(selected), Some(duration)) => if duration > 0
            && !(d.selected_temporal_extent_source is Unknown) && selected + duration <= i64::MAX {
            Some(
                PreviewDecodeTemporalSelection {
                    requested_pts: requested,
                    selected_pts: selected,
                    selected_duration_pts: duration,
                    extent_source: d.selected_temporal_extent_source,
                    temporal_approximation: d.temporal_approximation,
                },
            )
        } else {
            None
        },
        _ => None,
    }
}

/// Hardware decode of a request: what was planned, and what came of it.
#[derive(Debug)]
pub struct PreviewHardwareDecodePlan {
    pub request: PreviewHardwareDecodeRequest,
    pub decision: PreviewHardwareDecodeDecision,
    pub ffmpeg_codec_config: HwAccelCodecConfigProbe,
    pub ffmpeg_device_context: HwAccelDeviceContextProbe,
    pub hardware_cpu_transfer_configured: bool,
    pub hardware_cpu_transfer_observed: bool,
    pub hardware_cpu_transfer_status: PreviewHardwareDecodeCpuTransferStatus,
    pub native_decode_fallback: Option<PreviewNativeDecodeFallback>,
    pub probe: HwAccelProbe,
}

/// Diagnostics with an access policy.
pub open spec fn with_policy(
    d: PreviewDecodeDiagnostics,
    policy: PreviewDecodeAccessPolicy,
) -> PreviewDecodeDiagnostics {
    PreviewDecodeDiagnostics {
        seek_strategy: policy.seek_strategy,
        forward_reuse_frame_window: policy.forward_reuse_frame_window,
        forward_decode_budget_frames: if policy.forward_decode_budget_frames > u32::MAX {
            u32::MAX
        } else {
            policy.forward_decode_budget_frames as u32
        },
        any_seek_window_ms: policy.any_seek_window_ms,
        scrub_adaptive_class: policy.scrub_adaptive_class,
        ..d
    }
}

/// Diagnostics with an access mode.
pub open spec fn with_mode(
    d: PreviewDecodeDiagnostics,
    access_mode: PreviewDecodeAccessMode,
) -> PreviewDecodeDiagnostics {
    with_policy(PreviewDecodeDiagnostics { access_mode, ..d }, mode_policy(access_mode))
}

/// Diagnostics with what was selected for a request.
pub open spec fn with_selection(
    d: PreviewDecodeDiagnostics,
    requested: i64,
    selected: Option<DecodedTemporalExtent>,
) -> PreviewDecodeDiagnostics {
    PreviewDecodeDiagnostics {
        requested_pts: Some(requested),
        selected_pts: match selected {
            Some(extent) => Some(extent.start_pts),
            None => None,
        },
        selected_duration_pts: match selected {
            Some(extent) => extent.duration_pts,
            None => None,
        },
        selected_temporal_extent_source: match selected {
            Some(extent) => extent.source,
            None => PreviewTemporalExtentSource::Unknown,
        },
        temporal_approximation: approximates(requested, selected),
        ..d
    }
}

/// Diagnostics with what a probe says of hardware decode.
pub open spec fn with_probe(
    d: PreviewDecodeDiagnostics,
    probe: HwAccelProbe,
) -> PreviewDecodeDiagnostics {
    PreviewDecodeDiagnostics {
        hw_accel_backend: probe.selected_backend,
        hardware_decode_candidate_backend: probe.candidate_backend,
        hardware_decode_candidate_handle_kind: probe.candidate_handle_kind,
        hardware_decode_adapter_available: probe.decoder_adapter_available,
        hardware_decode_active: probe.hardware_decode_active,
        zero_copy_active: probe.zero_copy_active,
        decoded_frame_residency: probe.frame_residency,
        gpu_frame_handle_kind: probe.gpu_frame_handle_kind,
        hardware_decode_blocker: blocker_of(probe),
        ..d
    }
}

/// Diagnostics with a plan of hardware decode.
pub open spec fn with_plan(
    d: PreviewDecodeDiagnostics,
    plan: PreviewHardwareDecodePlan,
) -> PreviewDecodeDiagnostics {
    with_probe(
        PreviewDecodeDiagnostics {
            hardware_decode_request: plan.request,
            hardware_decode_decision: plan.decision,
            hardware_decode_ffmpeg_device_type_available:
                plan.ffmpeg_codec_config.ffmpeg_device_type_available,
            hardware_decode_ffmpeg_codec_config_available:
                plan.ffmpeg_codec_config.ffmpeg_codec_config_available,
            hardware_decode_ffmpeg_hw_pixel_format: plan.ffmpeg_codec_config.hw_pixel_format,
            hardware_decode_ffmpeg_device_context_attempted:
                plan.ffmpeg_device_context.device_create_attempted,
            hardware_decode_ffmpeg_device_context_created:
                plan.ffmpeg_device_context.device_context_created,
            hardware_decode_ffmpeg_device_context_error_code:
                plan.ffmpeg_device_context.device_create_error_code,
            hardware_decode_cpu_transfer_configured: plan.hardware_cpu_transfer_configured,
            hardware_decode_cpu_transfer_observed: plan.hardware_cpu_transfer_observed,
            hardware_decode_cpu_transfer_status: plan.hardware_cpu_transfer_status,
            native_decode_fallback: plan.native_decode_fallback,
            ..d
        },
        plan.probe,
    )
}

impl PreviewDecodeDiagnostics {
    /// Diagnostics of a frame of which only the way is known.
    pub fn new(path: PreviewDecodePath) -> (r: PreviewDecodeDiagnostics)
        ensures
            r == fresh_diagnostics(path),
    {
        PreviewDecodeDiagnostics {
            path,
            elapsed_us: 0,
            cache_hit: path == PreviewDecodePath::PlaybackSessionRingHit,
            access_mode: PreviewDecodeAccessMode::RandomAccessStillFrame,
            external_process: path == PreviewDecodePath::ExternalFfmpegCpuRgba,
            cpu_resident: path != PreviewDecodePath::InProcessFfmpegNative,
            seek_performed: false,
            requested_pts: None,
            selected_pts: None,
            selected_duration_pts: None,
            selected_temporal_extent_source: PreviewTemporalExtentSource::Unknown,
            temporal_approximation: false,
            seek_strategy: PreviewDecodeSeekStrategy::KeyframeBefore,
            forward_reuse_frame_window: 0,
            forward_decode_budget_frames: 0,
            any_seek_window_ms: 0,
            scrub_adaptive_class: PreviewScrubAdaptiveClass::Normal,
            hardware_decode_request: PreviewHardwareDecodeRequest::Auto,
            hardware_decode_decision: PreviewHardwareDecodeDecision::CpuRgbaNotRequested,
            hardware_decode_candidate_backend: None,
            hardware_decode_candidate_handle_kind: None,
            hardware_decode_adapter_available: false,
            hardware_decode_ffmpeg_device_type_available: false,
            hardware_decode_ffmpeg_codec_config_available: false,
            hardware_decode_ffmpeg_hw_pixel_format: None,
            hardware_decode_ffmpeg_device_context_attempted: false,
            hardware_decode_ffmpeg_device_context_created: false,
            hardware_decode_ffmpeg_device_context_error_code: None,
            hardware_decode_cpu_transfer_configured: false,
            hardware_decode_cpu_transfer_observed: false,
            hardware_decode_cpu_transfer_status: PreviewHardwareDecodeCpuTransferStatus::NotAttempted,
            session_disposition: PreviewDecodeSessionDisposition::Unspecified,
            forward_reused: false,
            seek_index_available: false,
            seek_index_keyframes: 0,
            seek_index_observed_packets: 0,
            seek_index_source: PreviewSeekIndexSource::Absent,
            seek_index_used: false,
            seek_index_anchor_pts: None,
            decoded_frame_count: 0,
            threading_kind: PreviewDecodeThreadingKind::Absent,
            threading_count: 0,
            stage_durations: PreviewDecodeStageDurations::default(),
            hw_accel_backend: HwAccelBackend::Absent,
            hardware_decode_active: false,
            zero_copy_active: false,
            decoded_frame_residency: DecodedFrameResidency::CpuRgba,
            gpu_frame_handle_kind: None,
            hardware_decode_blocker: PreviewHardwareDecodeBlocker::TextureResidencyNotConnected,
            native_decode_fallback: None,
            decoded_surface_format: DecodedVideoSurfaceFormat::Unknown,
            decoded_video_sampling: DecodedVideoSampling::default(),
        }
    }

    /// The work that is proven: preference and capability alone prove nothing.
    pub fn execution_path(&self) -> (r: PreviewDecodeExecutionPath)
        ensures
            r == proven_path(*self),
    {
        match self.gpu_frame_handle_kind {
            Some(handle_kind) => {
                if self.hardware_decode_decision == PreviewHardwareDecodeDecision::GpuResidentNative
                    && self.hardware_decode_active && self.zero_copy_active
                    && self.decoded_frame_residency == DecodedFrameResidency::GpuTexture {
                    return PreviewDecodeExecutionPath::HardwareNative {
                        backend: self.hw_accel_backend,
                        handle_kind,
                        surface: self.decoded_surface_format,
                        sampling: self.decoded_video_sampling,
                    };
                }
            },
            None => {},
        }
        if self.hardware_decode_cpu_transfer_observed && self.hardware_decode_active {
            return PreviewDecodeExecutionPath::HardwareCpuTransfer {
                backend: self.hw_accel_backend,
                surface: self.decoded_surface_format,
                sampling: self.decoded_video_sampling,
            };
        }
        PreviewDecodeExecutionPath::SoftwareCpu
    }

    /// The temporal identity of the frame.
    pub fn temporal_selection(&self) -> (r: Option<PreviewDecodeTemporalSelection>)
        ensures
            r == temporal_identity(*self),
    {
        match (self.requested_pts, self.selected_pts, self.selected_duration_pts) {
            (Some(requested), Some(selected), Some(duration)) => {
                if duration > 0 && self.selected_temporal_extent_source
                    != PreviewTemporalExtentSource::Unknown && selected.checked_add(
                    duration,
                ).is_some() {
                    Some(
                        PreviewDecodeTemporalSelection {
                            requested_pts: requested,
                            selected_pts: selected,
                            selected_duration_pts: duration,
                            extent_source: self.selected_temporal_extent_source,
                            temporal_approximation: self.temporal_approximation,
                        },
                    )
                } else {
                    None
                }
            },
            _ => None,
        }
    }

    /// These diagnostics with the time of the whole decode.
    pub fn with_elapsed(self, micros: u128) -> (r: PreviewDecodeDiagnostics)
        ensures
            r == (PreviewDecodeDiagnostics { elapsed_us: counted_us(micros), ..self }),
    {
        PreviewDecodeDiagnostics {
            elapsed_us: duration_us(micros),
            ..self
        }
    }

    /// Diagnostics of a frame that a playback session had kept.
    pub fn playback_ring_hit(micros: u128) -> (r: PreviewDecodeDiagnostics)
        ensures
            r == (PreviewDecodeDiagnostics {
                session_disposition: PreviewDecodeSessionDisposition::BypassedCache,
                elapsed_us: counted_us(micros),
                ..with_mode(
                    fresh_diagnostics(PreviewDecodePath::PlaybackSessionRingHit),
                    PreviewDecodeAccessMode::PlaybackCursor,
                )
            }),
    {
        PreviewDecodeDiagnostics::new(PreviewDecodePath::PlaybackSessionRingHit).with_access_mode(
            PreviewDecodeAccessMode::PlaybackCursor,
        ).with_session_disposition(PreviewDecodeSessionDisposition::BypassedCache).with_elapsed(
            micros,
        )
    }

    /// These diagnostics with an access mode and its policy.
    pub fn with_access_mode(self, access_mode: PreviewDecodeAccessMode) -> (r:
        PreviewDecodeDiagnostics)
        ensures
            r == with_mode(self, access_mode),
    {
        let diagnostics = PreviewDecodeDiagnostics {
            access_mode: access_mode,
            ..self
        };
        diagnostics.with_access_policy(PreviewDecodeAccessPolicy::for_access_mode(access_mode))
    }

    /// These diagnostics with what was selected for a request.
    pub fn with_temporal_selection(
        self,
        requested_pts: i64,
        selected_extent: Option<DecodedTemporalExtent>,
    ) -> (r: PreviewDecodeDiagnostics)
        ensures
            r == with_selection(self, requested_pts, selected_extent),
    {
        let (selected_pts, selected_duration_pts, source) = match selected_extent {
            Some(extent) => (Some(extent.start_pts), extent.duration_pts, extent.source),
            None => (None, None, PreviewTemporalExtentSource::Unknown),
        };
        PreviewDecodeDiagnostics {
            requested_pts: Some(requested_pts),
            selected_pts,
            selected_duration_pts,
            selected_temporal_extent_source: source,
            temporal_approximation: temporal_selection_is_approximate(
                requested_pts,
                selected_extent,
            ),
            ..self
        }
    }

    /// These diagnostics with what became of the session.
    pub fn with_session_disposition(self, disposition: PreviewDecodeSessionDisposition) -> (r:
        PreviewDecodeDiagnostics)
        ensures
            r == (PreviewDecodeDiagnostics { session_disposition: disposition, ..self }),
    {
        PreviewDecodeDiagnostics {
            session_disposition: disposition,
            ..self
        }
    }

    /// These diagnostics with an access policy.
    pub fn with_access_policy(self, policy: PreviewDecodeAccessPolicy) -> (r:
        PreviewDecodeDiagnostics)
        ensures
            r == with_policy(self, policy),
    {
        PreviewDecodeDiagnostics {
            seek_strategy: policy.seek_strategy,
            forward_reuse_frame_window: policy.forward_reuse_frame_window,
            forward_decode_budget_frames: if policy.forward_decode_budget_frames as u64 > 0xffff_ffff {
                u32::MAX
            } else {
                policy.forward_decode_budget_frames as u32
            },
            any_seek_window_ms: policy.any_seek_window_ms,
            scrub_adaptive_class: policy.scrub_adaptive_class,
            ..self
        }
    }

    /// These diagnostics with what a probe says of hardware decode.
    pub fn with_hw_accel_probe(self, probe: &HwAccelProbe) -> (r: PreviewDecodeDiagnostics)
        ensures
            r == with_probe(self, *probe),
    {
        PreviewDecodeDiagnostics {
            hw_accel_backend: probe.selected_backend,
            hardware_decode_candidate_backend: probe.candidate_backend,
            hardware_decode_candidate_handle_kind: probe.candidate_handle_kind,
            hardware_decode_adapter_available: probe.decoder_adapter_available,
            hardware_decode_active: probe.hardware_decode_active,
            zero_copy_active: probe.zero_copy_active,
            decoded_frame_residency: probe.frame_residency,
            gpu_frame_handle_kind: probe.gpu_frame_handle_kind,
            hardware_decode_blocker: PreviewHardwareDecodeBlocker::from_probe(probe),
            ..self
        }
    }

    /// These diagnostics with a plan of hardware decode.
    pub fn with_hardware_decode_plan(self, plan: &PreviewHardwareDecodePlan) -> (r:
        PreviewDecodeDiagnostics)
        ensures
            r == with_plan(self, *plan),
    {
        let diagnostics = PreviewDecodeDiagnostics {
            hardware_decode_request: plan.request,
            hardware_decode_decision: plan.decision,
            hardware_decode_ffmpeg_device_type_available: plan.ffmpeg_codec_config.ffmpeg_device_type_available,
            hardware_decode_ffmpeg_codec_config_available: plan.ffmpeg_codec_config.ffmpeg_codec_config_available,
            hardware_decode_ffmpeg_hw_pixel_format: plan.ffmpeg_codec_config.hw_pixel_format,
            hardware_decode_ffmpeg_device_context_attempted: plan.ffmpeg_device_context.device_create_attempted,
            hardware_decode_ffmpeg_device_context_created: plan.ffmpeg_device_context.device_context_created,
            hardware_decode_ffmpeg_device_context_error_code: plan.ffmpeg_device_context.device_create_error_code,
            hardware_decode_cpu_transfer_configured: plan.hardware_cpu_transfer_configured,
            hardware_decode_cpu_transfer_observed: plan.hardware_cpu_transfer_observed,
            hardware_decode_cpu_transfer_status: plan.hardware_cpu_transfer_status,
            native_decode_fallback: plan.native_decode_fallback,
            ..self
        };
        diagnostics.with_hw_accel_probe(&plan.probe)
    }
}

/// The presentation interval that diagnostics keep, as far as it is known.
pub open spec fn kept_extent(d: PreviewDecodeDiagnostics) -> Option<DecodedTemporalExtent> {
    match d.selected_pts {
        None => None,
        Some(start) => Some(
            match d.selected_duration_pts {
                Some(duration) => if duration > 0 && !(d.selected_temporal_extent_source is Unknown)
                    && start + duration <= i64::MAX {
                    DecodedTemporalExtent {
                        source: d.selected_temporal_extent_source,
                        ..lasting(start, duration)
                    }
                } else {
                    point(start)
                },
                None => point(start),
            },
        ),
    }
}

impl DecodedTemporalExtent {
    /// The presentation interval that diagnostics keep.
    pub fn from_diagnostics(diagnostics: PreviewDecodeDiagnostics) -> (r: Option<
        DecodedTemporalExtent,
    >)
        ensures
            r == kept_extent(diagnostics),
    {
        match diagnostics.selected_pts {
            None => None,
            Some(start) => {
                match diagnostics.selected_duration_pts {
                    Some(duration) => {
                        if duration > 0 && diagnostics.selected_temporal_extent_source
                            != PreviewTemporalExtentSource::Unknown {
                            let mut extent = DecodedTemporalExtent::from_duration(start, duration);
                            if extent.duration_pts.is_some() {
                                extent.source = diagnostics.selected_temporal_extent_source;
                            }
                            return Some(extent);
                        }
                    },
                    None => {},
                }
                Some(DecodedTemporalExtent::point(start))
            },
        }
    }
}

/// A selected interval is read back as it was: one that is positive, fits and has evidence,
/// or a point. Where nothing was selected, nothing is read back.
pub proof fn extents_are_read_back(
    d: PreviewDecodeDiagnostics,
    requested: i64,
    extent: DecodedTemporalExtent,
)
    requires
        extent == point(extent.start_pts) || {
            &&& extent.duration_pts matches Some(duration) && duration > 0 && extent.start_pts
                + duration <= i64::MAX
            &&& !(extent.source is Unknown)
        },
    ensures
        kept_extent(with_selection(d, requested, Some(extent))) == Some(extent),
        kept_extent(with_selection(d, requested, None)) is None,
{
}

/// What was selected comes back as the temporal identity, exactly where its interval is
/// positive, has evidence, and fits.
pub proof fn selections_are_kept(
    d: PreviewDecodeDiagnostics,
    requested: i64,
    extent: DecodedTemporalExtent,
)
    ensures
        temporal_identity(with_selection(d, requested, Some(extent))) matches Some(selection) ==> {
            &&& selection.requested_pts == requested
            &&& selection.selected_pts == extent.start_pts
            &&& extent.duration_pts == Some(selection.selected_duration_pts)
            &&& selection.extent_source == extent.source
            &&& selection.temporal_approximation == !extent.spec_covers(requested as int)
        },
        temporal_identity(with_selection(d, requested, Some(extent))) is Some <==> {
            &&& extent.duration_pts matches Some(duration) && duration > 0 && extent.start_pts
                + duration <= i64::MAX
            &&& !(extent.source is Unknown)
        },
        temporal_identity(with_selection(d, requested, None)) is None,
{
}

/// Where frames are returned in main memory, no diagnostics prove hardware work.
pub proof fn closed_probes_prove_software(
    d: PreviewDecodeDiagnostics,
    probe: HwAccelProbe,
    platform: crate::decoder::backend::Platform,
)
    requires
        crate::decoder::backend::probes_closed(probe, platform),
    ensures
        proven_path(with_probe(d, probe)) is SoftwareCpu,
{
}

/// Hardware work is proven only by what was done: a handle on the GPU that a native decision
/// led to without a copy, or an observed transfer to main memory; each while hardware was
/// at work. Everything else is software.
pub proof fn hardware_work_has_to_show(d: PreviewDecodeDiagnostics)
    ensures
        !d.hardware_decode_active ==> proven_path(d) is SoftwareCpu,
        proven_path(d) is HardwareNative ==> {
            &&& d.gpu_frame_handle_kind == Some(proven_path(d)->handle_kind)
            &&& d.zero_copy_active
            &&& d.decoded_frame_residency is GpuTexture
            &&& d.hardware_decode_decision is GpuResidentNative
            &&& proven_path(d)->HardwareNative_backend == d.hw_accel_backend
            &&& proven_path(d)->HardwareNative_surface == d.decoded_surface_format
            &&& proven_path(d)->HardwareNative_sampling == d.decoded_video_sampling
        },
        proven_path(d) is HardwareCpuTransfer ==> {
            &&& d.hardware_decode_cpu_transfer_observed
            &&& proven_path(d)->HardwareCpuTransfer_backend == d.hw_accel_backend
            &&& proven_path(d)->HardwareCpuTransfer_surface == d.decoded_surface_format
            &&& proven_path(d)->HardwareCpuTransfer_sampling == d.decoded_video_sampling
        },
        d.hardware_decode_active && d.zero_copy_active && d.gpu_frame_handle_kind is Some
            && d.decoded_frame_residency is GpuTexture
            && d.hardware_decode_decision is GpuResidentNative ==> proven_path(d) is HardwareNative,
        d.hardware_decode_active && d.hardware_decode_cpu_transfer_observed ==> !(
        proven_path(d) is SoftwareCpu),
        !d.zero_copy_active && !d.hardware_decode_cpu_transfer_observed
            ==> proven_path(d) is SoftwareCpu,
{
}

/// Diagnostics of which only the way is known claim no hardware work, no seek and no frame.
/// The way alone tells whether the frame was kept before, came from another process, or is
/// on a device.
pub proof fn ways_tell_where_frames_come_from(path: PreviewDecodePath)
    ensures
        ({
            let d = fresh_diagnostics(path);
            &&& d.path == path
            &&& proven_path(d) is SoftwareCpu
            &&& temporal_identity(d) is None
            &&& kept_extent(d) is None
            &&& d.cache_hit <==> path is PlaybackSessionRingHit
            &&& d.external_process <==> path is ExternalFfmpegCpuRgba
            &&& d.cpu_resident <==> !(path is InProcessFfmpegNative)
            &&& !d.seek_performed
            &&& !d.forward_reused
            &&& !d.temporal_approximation
            &&& !d.seek_index_available
            &&& !d.seek_index_used
            &&& d.seek_index_anchor_pts is None
            &&& d.seek_index_source is Absent
            &&& d.seek_index_keyframes == 0
            &&& d.seek_index_observed_packets == 0
            &&& d.threading_kind is Absent
            &&& d.threading_count == 0
            &&& d.decoded_frame_count == 0
            &&& d.elapsed_us == 0
            &&& d.requested_pts is None
            &&& !d.hardware_decode_active
            &&& !d.zero_copy_active
            &&& !d.hardware_decode_adapter_available
            &&& !d.hardware_decode_ffmpeg_device_context_attempted
            &&& !d.hardware_decode_ffmpeg_device_context_created
            &&& !d.hardware_decode_cpu_transfer_configured
            &&& !d.hardware_decode_cpu_transfer_observed
            &&& d.hardware_decode_request is Auto
            &&& d.decoded_frame_residency is CpuRgba
            &&& d.gpu_frame_handle_kind is None
            &&& d.native_decode_fallback is None
        }),
{
}

/// Adding times adds each stage to the same stage, as far as 64 bits hold it.
pub proof fn stages_add_up(a: PreviewDecodeStageDurations, b: PreviewDecodeStageDurations)
    ensures
        a.session_open_us + b.session_open_us <= u64::MAX ==> times_added(a, b).session_open_us
            == a.session_open_us + b.session_open_us,
        a.output_lease_wait_us + b.output_lease_wait_us <= u64::MAX ==> times_added(
            a,
            b,
        ).output_lease_wait_us == a.output_lease_wait_us + b.output_lease_wait_us,
        a.cache_lookup_us + b.cache_lookup_us <= u64::MAX ==> times_added(a, b).cache_lookup_us
            == a.cache_lookup_us + b.cache_lookup_us,
        a.seek_us + b.seek_us <= u64::MAX ==> times_added(a, b).seek_us == a.seek_us + b.seek_us,
        a.packet_decode_us + b.packet_decode_us <= u64::MAX ==> times_added(a, b).packet_decode_us
            == a.packet_decode_us + b.packet_decode_us,
        a.hardware_transfer_us + b.hardware_transfer_us <= u64::MAX ==> times_added(
            a,
            b,
        ).hardware_transfer_us == a.hardware_transfer_us + b.hardware_transfer_us,
        a.swscale_us + b.swscale_us <= u64::MAX ==> times_added(a, b).swscale_us == a.swscale_us
            + b.swscale_us,
        a.rgba_copy_us + b.rgba_copy_us <= u64::MAX ==> times_added(a, b).rgba_copy_us
            == a.rgba_copy_us + b.rgba_copy_us,
        a.external_process_us + b.external_process_us <= u64::MAX ==> times_added(
            a,
            b,
        ).external_process_us == a.external_process_us + b.external_process_us,
        times_added(a, b) == times_added(b, a),
        times_added(a, no_time()) == a,
{
}

/// Diagnostics show the policy, the mode and the plan that they are given, and keep the rest.
pub proof fn diagnostics_show_what_they_are_given(
    d: PreviewDecodeDiagnostics,
    policy: PreviewDecodeAccessPolicy,
    mode: PreviewDecodeAccessMode,
    plan: PreviewHardwareDecodePlan,
    requested: i64,
    selected: Option<DecodedTemporalExtent>,
)
    ensures
        ({
            let p = with_policy(d, policy);
            &&& p.seek_strategy == policy.seek_strategy
            &&& p.forward_reuse_frame_window == policy.forward_reuse_frame_window
            &&& policy.forward_decode_budget_frames <= u32::MAX ==> p.forward_decode_budget_frames
                == policy.forward_decode_budget_frames
            &&& p.any_seek_window_ms == policy.any_seek_window_ms
            &&& p.scrub_adaptive_class == policy.scrub_adaptive_class
            &&& p.path == d.path
            &&& p.access_mode == d.access_mode
            &&& proven_path(p) == proven_path(d)
            &&& temporal_identity(p) == temporal_identity(d)
        }),
        with_mode(d, mode).access_mode == mode,
        with_mode(d, mode).seek_strategy is BoundedAnyFrame <==> mode is ScrubCursor,
        ({
            let p = with_plan(d, plan);
            &&& p.hardware_decode_request == plan.request
            &&& p.hardware_decode_decision == plan.decision
            &&& p.hw_accel_backend == plan.probe.selected_backend
            &&& p.hardware_decode_active == plan.probe.hardware_decode_active
            &&& p.zero_copy_active == plan.probe.zero_copy_active
            &&& p.hardware_decode_cpu_transfer_observed == plan.hardware_cpu_transfer_observed
            &&& p.hardware_decode_cpu_transfer_configured == plan.hardware_cpu_transfer_configured
            &&& p.decoded_frame_residency == plan.probe.frame_residency
            &&& p.gpu_frame_handle_kind == plan.probe.gpu_frame_handle_kind
            &&& p.hardware_decode_ffmpeg_device_context_created
                == plan.ffmpeg_device_context.device_context_created
            &&& p.hardware_decode_ffmpeg_device_context_attempted
                == plan.ffmpeg_device_context.device_create_attempted
            &&& p.hardware_decode_ffmpeg_codec_config_available
                == plan.ffmpeg_codec_config.ffmpeg_codec_config_available
            &&& p.hardware_decode_ffmpeg_device_type_available
                == plan.ffmpeg_codec_config.ffmpeg_device_type_available
            &&& p.hardware_decode_candidate_backend == plan.probe.candidate_backend
            &&& p.selected_pts == d.selected_pts
            &&& p.access_mode == d.access_mode
        }),
        with_selection(d, requested, selected).requested_pts == Some(requested),
        proven_path(with_selection(d, requested, selected)) == proven_path(d),
        with_selection(d, requested, selected).selected_pts is Some <==> selected is Some,
{
}

/// Microseconds are counted as they are, up to what 64 bits hold.
pub proof fn microseconds_are_counted(micros: u128)
    ensures
        micros <= u64::MAX ==> counted_us(micros) == micros,
        micros > u64::MAX ==> counted_us(micros) == u64::MAX,
{
}

} // verus!