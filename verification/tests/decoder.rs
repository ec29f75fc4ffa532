use mondrian_media::decoder::backend::{
    CodecConfig, CodecFacts, DecodedGpuFrameHandleKind, DeviceCreation, HwAccelBackend,
    HwAccelCodecConfigMethods, HwAccelDeviceSelector, HwAccelPixelFormat, HwDeviceType, Platform,
};
use mondrian_media::decoder::pool::{
    check_renderer_device, AcquireStart, DeviceKey, DeviceLease, HwDeviceContextPool,
    HwDeviceContextPoolPolicy, RendererDeviceCreation, RendererHwAccelDeviceContextCreateError,
    RendererHwAccelDeviceContextInstallError, RootCreation,
};
use mondrian_media::decoder::range::{
    decoded_video_range_from_ffmpeg, resolve_decoded_video_range, DecodedVideoRange,
    DecodedVideoRangeContract, DecoderRangeTag, MediaRangeInterpretation, MediaSignalRange,
};
use mondrian_media::decoder::surface::{
    DecodedFrameResidency, DecodedVideoSurfaceChromaSubsampling, DecodedVideoSurfaceColorModel,
    DecodedVideoSurfaceFormat, DecodedVideoSurfaceNumericEncoding, DecodedVideoSurfacePlaneLayout,
};

#[test]
fn decoded_video_range_resolution_keeps_auto_and_honors_override() {
    let automatic = DecodedVideoRangeContract::from_interpretation(
        MediaRangeInterpretation::Auto,
        DecodedVideoRange::Limited,
    );
    assert_eq!(
        automatic.resolve_for_frame(DecodedVideoRange::Full),
        DecodedVideoRange::Full
    );
    assert_eq!(
        automatic.resolve_for_frame(DecodedVideoRange::Unknown),
        DecodedVideoRange::Limited
    );
    let override_full = DecodedVideoRangeContract::from_interpretation(
        MediaRangeInterpretation::Override { range: MediaSignalRange::Full },
        DecodedVideoRange::Limited,
    );
    assert_eq!(
        override_full.resolve_for_frame(DecodedVideoRange::Limited),
        DecodedVideoRange::Full
    );

    assert_eq!(
        resolve_decoded_video_range(MediaRangeInterpretation::Auto, DecodedVideoRange::Limited),
        DecodedVideoRange::Limited
    );
    assert_eq!(
        resolve_decoded_video_range(
            MediaRangeInterpretation::Override { range: MediaSignalRange::Full },
            DecodedVideoRange::Unknown
        ),
        DecodedVideoRange::Full
    );
}

#[test]
fn hw_accel_probe_fails_closed_until_texture_residency_exists() {
    for platform in [Platform::Windows, Platform::MacOs, Platform::Linux, Platform::Other] {
        let probe = HwAccelBackend::probe(platform);

        assert_eq!(
            probe.candidate_backends,
            HwAccelBackend::platform_candidates(platform)
        );
        assert_eq!(
            probe.candidate_backend,
            HwAccelBackend::platform_candidate(platform)
        );
        assert_eq!(
            probe.candidate_handle_kind,
            probe.candidate_backend.and_then(HwAccelBackend::native_handle_kind)
        );
        assert_eq!(
            probe.candidate_surface_formats,
            probe
                .candidate_backend
                .map(HwAccelBackend::preferred_surface_formats)
                .unwrap_or_default()
        );
        assert!(!probe.decoder_adapter_available);
        assert_eq!(probe.selected_backend, HwAccelBackend::Absent);
        assert!(!probe.hardware_decode_active);
        assert!(!probe.zero_copy_active);
        assert_eq!(probe.frame_residency, DecodedFrameResidency::CpuRgba);
        assert_eq!(probe.gpu_frame_handle_kind, None);
        assert!(probe.reason.contains("CPU RGBA decode"));
    }
}

#[test]
fn hardware_backend_candidates_map_to_native_handles_and_surface_formats() {
    assert_eq!(
        HwAccelBackend::D3D12VA.native_handle_kind(),
        Some(DecodedGpuFrameHandleKind::D3D12Resource)
    );
    assert_eq!(
        HwAccelBackend::D3D11VA.native_handle_kind(),
        Some(DecodedGpuFrameHandleKind::D3D11Texture2D)
    );
    assert_eq!(
        HwAccelBackend::Dxva2.native_handle_kind(),
        Some(DecodedGpuFrameHandleKind::Dxva2Surface)
    );
    assert_eq!(
        HwAccelBackend::VideoToolbox.native_handle_kind(),
        Some(DecodedGpuFrameHandleKind::CVPixelBuffer)
    );
    assert_eq!(
        HwAccelBackend::Vaapi.native_handle_kind(),
        Some(DecodedGpuFrameHandleKind::VaapiSurface)
    );
    assert_eq!(
        HwAccelBackend::Vdpau.native_handle_kind(),
        Some(DecodedGpuFrameHandleKind::VdpauVideoSurface)
    );
    assert_eq!(
        HwAccelBackend::Cuda.native_handle_kind(),
        Some(DecodedGpuFrameHandleKind::CudaDeviceMemory)
    );
    assert_eq!(HwAccelBackend::Absent.native_handle_kind(), None);
    assert_eq!(
        HwAccelBackend::D3D12VA.preferred_surface_formats(),
        vec![
            DecodedVideoSurfaceFormat::P010,
            DecodedVideoSurfaceFormat::Nv12
        ]
    );
    assert_eq!(
        HwAccelBackend::D3D11VA.preferred_surface_formats(),
        vec![
            DecodedVideoSurfaceFormat::Rgba16Float,
            DecodedVideoSurfaceFormat::Bgra8,
            DecodedVideoSurfaceFormat::Xv36,
            DecodedVideoSurfaceFormat::Xv30,
            DecodedVideoSurfaceFormat::Y212,
            DecodedVideoSurfaceFormat::Y210,
            DecodedVideoSurfaceFormat::P012,
            DecodedVideoSurfaceFormat::P010,
            DecodedVideoSurfaceFormat::Nv12
        ]
    );
    assert_eq!(
        HwAccelBackend::VideoToolbox.preferred_surface_formats(),
        vec![
            DecodedVideoSurfaceFormat::Bgra8,
            DecodedVideoSurfaceFormat::P416,
            DecodedVideoSurfaceFormat::P410,
            DecodedVideoSurfaceFormat::P216,
            DecodedVideoSurfaceFormat::P210,
            DecodedVideoSurfaceFormat::P010,
            DecodedVideoSurfaceFormat::Nv12,
        ]
    );
    assert_eq!(
        HwAccelBackend::Vaapi.preferred_surface_formats(),
        vec![
            DecodedVideoSurfaceFormat::Bgra8,
            DecodedVideoSurfaceFormat::Rgba8,
            DecodedVideoSurfaceFormat::Xv36,
            DecodedVideoSurfaceFormat::Xv30,
            DecodedVideoSurfaceFormat::Y212,
            DecodedVideoSurfaceFormat::Y210,
            DecodedVideoSurfaceFormat::P012,
            DecodedVideoSurfaceFormat::P010,
            DecodedVideoSurfaceFormat::Nv12,
        ]
    );
    assert_eq!(
        HwAccelBackend::Dxva2.preferred_surface_formats(),
        Vec::new()
    );
    assert_eq!(
        HwAccelBackend::Vdpau.preferred_surface_formats(),
        Vec::new()
    );
}

#[test]
fn hardware_backends_map_to_ffmpeg_device_types() {
    assert_eq!(HwAccelBackend::Absent.to_ffmpeg_device_type(true), None);
    assert_eq!(
        HwAccelBackend::D3D12VA.to_ffmpeg_device_type(true),
        Some(HwDeviceType::D3D12Va)
    );
    assert_eq!(HwAccelBackend::D3D12VA.to_ffmpeg_device_type(false), None);
    assert_eq!(
        HwAccelBackend::D3D11VA.to_ffmpeg_device_type(true),
        Some(HwDeviceType::D3D11Va)
    );
    assert_eq!(
        HwAccelBackend::Dxva2.to_ffmpeg_device_type(true),
        Some(HwDeviceType::Dxva2)
    );
    assert_eq!(
        HwAccelBackend::VideoToolbox.to_ffmpeg_device_type(true),
        Some(HwDeviceType::VideoToolbox)
    );
    assert_eq!(
        HwAccelBackend::Vaapi.to_ffmpeg_device_type(true),
        Some(HwDeviceType::Vaapi)
    );
    assert_eq!(
        HwAccelBackend::Vdpau.to_ffmpeg_device_type(true),
        Some(HwDeviceType::Vdpau)
    );
    assert_eq!(
        HwAccelBackend::Cuda.to_ffmpeg_device_type(true),
        Some(HwDeviceType::Cuda)
    );
}

#[test]
fn dxgi_device_selector_maps_to_modern_ffmpeg_windows_backends() {
    let d3d12 = HwAccelDeviceSelector::D3D12VaAdapterIndex(7);
    let d3d11 = HwAccelDeviceSelector::D3D11VaAdapterIndex(7);

    assert_eq!(
        d3d11.device_name_for(HwAccelBackend::D3D11VA).as_deref(),
        Some("7")
    );
    assert_eq!(
        d3d12.device_name_for(HwAccelBackend::D3D12VA).as_deref(),
        Some("7")
    );
    assert_eq!(d3d12.device_name_for(HwAccelBackend::D3D11VA), None);
    assert_eq!(d3d11.device_name_for(HwAccelBackend::D3D12VA), None);
    assert!(d3d12.selects_backend(HwAccelBackend::D3D12VA));
    assert!(d3d11.selects_backend(HwAccelBackend::D3D11VA));
    assert!(!d3d12.selects_backend(HwAccelBackend::D3D11VA));
    assert!(!d3d11.selects_backend(HwAccelBackend::D3D12VA));
    assert_eq!(d3d12.device_name_for(HwAccelBackend::Cuda), None);
    assert!(!d3d12.selects_backend(HwAccelBackend::Cuda));
}

#[test]
fn hw_accel_pixel_format_names_are_stable() {
    assert_eq!(HwAccelPixelFormat::D3D12.as_str(), "D3D12");
    assert_eq!(HwAccelPixelFormat::D3D11.as_str(), "D3D11");
    assert_eq!(HwAccelPixelFormat::D3D11VA.as_str(), "D3D11VA");
    assert_eq!(HwAccelPixelFormat::Dxva2.as_str(), "DXVA2");
    assert_eq!(HwAccelPixelFormat::VideoToolbox.as_str(), "VideoToolbox");
    assert_eq!(HwAccelPixelFormat::Vaapi.as_str(), "Vaapi");
    assert_eq!(HwAccelPixelFormat::Vdpau.as_str(), "VDPAU");
    assert_eq!(HwAccelPixelFormat::Cuda.as_str(), "Cuda");
    assert_eq!(HwAccelPixelFormat::Other(123).as_str(), "Other");
}

#[test]
fn ffmpeg_hw_codec_config_probe_reports_structured_support_for_common_codecs() {
    let backend = HwAccelBackend::platform_candidate(Platform::Linux).unwrap_or(HwAccelBackend::D3D11VA);
    let configs = [
        CodecConfig {
            device_type: Some(HwDeviceType::Cuda),
            pixel_format: HwAccelPixelFormat::Cuda,
            methods: 1,
        },
        CodecConfig {
            device_type: Some(HwDeviceType::Vaapi),
            pixel_format: HwAccelPixelFormat::Vaapi,
            methods: 3,
        },
    ];
    for (codec, configs) in [
        ("H264", Some(&configs[..])),
        ("HEVC", Some(&configs[..1])),
    ] {
        for device_type_listed in [false, true] {
            let probe = backend.probe_ffmpeg_codec_config(
                true,
                &CodecFacts { codec, device_type_listed, configs },
            );
            assert_eq!(probe.backend, backend);
            assert!(probe.backend_maps_to_ffmpeg_device);
            assert_eq!(probe.ffmpeg_device_type_available, device_type_listed);
            assert!(!probe.reason.is_empty());
            if device_type_listed {
                assert!(probe.ffmpeg_decoder_available);
            }
            if probe.ffmpeg_codec_config_available {
                assert!(probe.hw_pixel_format.is_some());
                assert!(
                    probe.methods.hw_device_ctx
                        || probe.methods.hw_frames_ctx
                        || probe.methods.internal
                        || probe.methods.ad_hoc
                );
            }
        }
    }
    let found = backend.probe_ffmpeg_codec_config(
        true,
        &CodecFacts { codec: "H264", device_type_listed: true, configs: Some(&configs) },
    );
    assert!(found.ffmpeg_codec_config_available);
    assert_eq!(found.hw_pixel_format, Some(HwAccelPixelFormat::Vaapi));
    assert!(found.methods.hw_device_ctx && found.methods.hw_frames_ctx);
    let other = backend.probe_ffmpeg_codec_config(
        true,
        &CodecFacts { codec: "HEVC", device_type_listed: true, configs: Some(&configs[..1]) },
    );
    assert!(!other.ffmpeg_codec_config_available);
    assert_eq!(other.hw_pixel_format, None);
    assert_eq!(other.methods, HwAccelCodecConfigMethods::default());
    let none = backend.probe_ffmpeg_codec_config(
        true,
        &CodecFacts { codec: "HEVC", device_type_listed: true, configs: None },
    );
    assert!(!none.ffmpeg_decoder_available);
}

#[test]
fn ffmpeg_hw_device_context_probe_reports_structured_runtime_status() {
    let backend = HwAccelBackend::platform_candidate(Platform::Linux).unwrap_or(HwAccelBackend::D3D11VA);
    for device_type_listed in [false, true] {
        for creation in [
            DeviceCreation::Created,
            DeviceCreation::Failed { code: -5, text: "Input/output error".to_owned() },
        ] {
            let probe = backend.probe_ffmpeg_device_context(true, device_type_listed, &creation);

            assert_eq!(probe.backend, backend);
            assert!(probe.backend_maps_to_ffmpeg_device);
            assert!(!probe.reason.is_empty());
            if probe.ffmpeg_device_type_available {
                assert!(probe.device_create_attempted);
            } else {
                assert!(!probe.device_create_attempted);
            }
            if probe.device_context_created {
                assert_eq!(probe.device_create_error_code, None);
            } else if probe.device_create_attempted {
                assert!(probe.device_create_error_code.is_some());
            }
            assert_eq!(probe.ffmpeg_device_type_available, device_type_listed);
            assert_eq!(
                probe.device_context_created,
                device_type_listed && creation == DeviceCreation::Created
            );
        }
    }
    let failed = HwAccelBackend::Vaapi.probe_ffmpeg_device_context(
        true,
        true,
        &DeviceCreation::Failed { code: -5, text: "Input/output error".to_owned() },
    );
    assert_eq!(failed.device_create_error_code, Some(-5));
    assert_eq!(
        failed.reason,
        "FFmpeg could not create Vaapi hardware device context: Input/output error"
    );
}

/// Acquires a lease, and creates the device context where the pool asks for it.
fn acquire(
    pool: &mut HwDeviceContextPool,
    backend: HwAccelBackend,
    root: u64,
    now: u64,
) -> DeviceLease {
    match pool.begin_acquire(backend, None, true, true, now) {
        AcquireStart::Reused(lease) => lease,
        AcquireStart::Create(ticket) => {
            pool.finish_acquire(ticket, RootCreation::Created { root }, now).expect("device lease")
        }
        AcquireStart::Refused(probe) => panic!("{}", probe.reason),
    }
}

#[test]
fn hardware_device_context_pool_reuses_and_safely_retires_generations() {
    let backend = HwAccelBackend::platform_candidate(Platform::Linux).unwrap_or(HwAccelBackend::D3D11VA);
    let mut pool = HwDeviceContextPool::new(HwDeviceContextPoolPolicy::default());
    let first = acquire(&mut pool, backend, 1, 0);
    let second = acquire(&mut pool, backend, 2, 0);

    assert_eq!(first.root, second.root);
    assert_eq!(first.generation, second.generation);
    pool.retire(first.key, first.generation);

    let replacement = acquire(&mut pool, backend, 3, 0);
    assert!(replacement.generation > first.generation);
    assert_ne!(first.root, replacement.root);
    assert_eq!(first.root, second.root);
    assert_eq!(pool.diagnostics(0).retirements, 1);

    pool.reconfigure(HwDeviceContextPoolPolicy::new(0));
    pool.release(first);
    pool.release(second);
    pool.release(replacement);
    let diagnostics = pool.diagnostics(0);
    assert_eq!(diagnostics.entries, 0);
    assert_eq!(diagnostics.idle_contexts, 0);
    assert_eq!(diagnostics.policy.max_idle_contexts, 0);
    assert_eq!(diagnostics.evictions, 1);
}

#[test]
fn retired_roots_are_no_longer_offered() {
    let backend = HwAccelBackend::platform_candidate(Platform::Linux).unwrap_or(HwAccelBackend::D3D11VA);
    let mut pool = HwDeviceContextPool::default();
    assert!(!pool.holds_root(1));
    let lease = acquire(&mut pool, backend, 1, 0);
    assert!(pool.holds_root(1));
    assert!(!pool.holds_root(2));
    pool.retire(lease.key, lease.generation);
    assert!(!pool.holds_root(1));
    pool.release(lease);
}

#[test]
fn hardware_device_context_pool_backs_off_failed_setup_and_can_be_invalidated() {
    let backend = HwAccelBackend::platform_candidate(Platform::Linux).unwrap_or(HwAccelBackend::D3D11VA);
    let mut pool = HwDeviceContextPool::new(HwDeviceContextPoolPolicy::default());
    let lease = acquire(&mut pool, backend, 1, 0);
    pool.retire_after_setup_failure(&lease, "test decoder-open failure".to_owned(), 0);
    pool.release(lease);

    let deferred = match pool.begin_acquire(backend, None, true, true, 1) {
        AcquireStart::Refused(probe) => probe,
        _ => panic!("retry must be delayed"),
    };
    assert!(!deferred.device_create_attempted);
    assert!(deferred.reason.contains("retry deferred"));
    let diagnostics = pool.diagnostics(1);
    assert_eq!(diagnostics.setup_failures, 1);
    assert_eq!(diagnostics.failure_backoffs, 1);
    assert_eq!(diagnostics.backoff_rejections, 1);
    assert_eq!(pool.diagnostics(u64::MAX).failure_backoffs, 0);

    pool.invalidate_failure_backoff();
    assert_eq!(pool.diagnostics(1).failure_backoffs, 0);
    let replacement = acquire(&mut pool, backend, 2, 1);
    assert!(replacement.generation > 0);
}

#[test]
fn mismatched_hardware_device_selector_is_rejected_before_driver_creation() {
    let mut pool = HwDeviceContextPool::new(HwDeviceContextPoolPolicy::default());
    let error = match pool.begin_acquire(
        HwAccelBackend::D3D12VA,
        Some(HwAccelDeviceSelector::D3D11VaAdapterIndex(0)),
        true,
        true,
        0,
    ) {
        AcquireStart::Refused(probe) => probe,
        _ => panic!("mismatched selector must fail"),
    };

    assert!(!error.device_create_attempted);
    assert!(error.reason.contains("does not select D3D12VA"));
}

#[test]
fn decoded_gpu_frame_handle_kind_has_stable_names() {
    assert_eq!(
        DecodedGpuFrameHandleKind::D3D12Resource.as_str(),
        "D3D12Resource"
    );
    assert_eq!(
        DecodedGpuFrameHandleKind::D3D11Texture2D.as_str(),
        "D3D11Texture2D"
    );
    assert_eq!(
        DecodedGpuFrameHandleKind::Dxva2Surface.as_str(),
        "Dxva2Surface"
    );
    assert_eq!(
        DecodedGpuFrameHandleKind::CVPixelBuffer.as_str(),
        "CVPixelBuffer"
    );
    assert_eq!(
        DecodedGpuFrameHandleKind::VaapiSurface.as_str(),
        "VaapiSurface"
    );
    assert_eq!(
        DecodedGpuFrameHandleKind::VdpauVideoSurface.as_str(),
        "VdpauVideoSurface"
    );
    assert_eq!(
        DecodedGpuFrameHandleKind::CudaDeviceMemory.as_str(),
        "CudaDeviceMemory"
    );
}

#[test]
fn decoded_frame_residency_has_stable_names() {
    assert_eq!(DecodedFrameResidency::CpuRgba.as_str(), "CpuRgba");
    assert_eq!(DecodedFrameResidency::CpuFloat.as_str(), "CpuFloat");
    assert_eq!(DecodedFrameResidency::GpuTexture.as_str(), "GpuTexture");
}

#[test]
fn decoded_video_surface_format_has_stable_names() {
    assert_eq!(DecodedVideoSurfaceFormat::Unknown.as_str(), "Unknown");
    assert_eq!(DecodedVideoSurfaceFormat::Nv12.as_str(), "Nv12");
    assert_eq!(DecodedVideoSurfaceFormat::P010.as_str(), "P010");
    assert_eq!(DecodedVideoSurfaceFormat::Yuv420p.as_str(), "Yuv420p");
    assert_eq!(
        DecodedVideoSurfaceFormat::Yuv420p10le.as_str(),
        "Yuv420p10le"
    );
    assert_eq!(DecodedVideoSurfaceFormat::Rgba8.as_str(), "Rgba8");
    assert_eq!(DecodedVideoSurfaceFormat::Bgra8.as_str(), "Bgra8");
    assert_eq!(DecodedVideoSurfaceFormat::Other.as_str(), "Other");
}

#[test]
fn decoded_video_surface_format_declares_native_gpu_payload_support() {
    assert!(DecodedVideoSurfaceFormat::Nv12.supports_native_gpu_payload());
    assert!(DecodedVideoSurfaceFormat::P010.supports_native_gpu_payload());
    assert!(DecodedVideoSurfaceFormat::Rgba8.supports_native_gpu_payload());
    assert!(DecodedVideoSurfaceFormat::Bgra8.supports_native_gpu_payload());
    assert!(!DecodedVideoSurfaceFormat::Unknown.supports_native_gpu_payload());
    assert!(!DecodedVideoSurfaceFormat::Yuv420p.supports_native_gpu_payload());
    assert!(!DecodedVideoSurfaceFormat::Yuv420p10le.supports_native_gpu_payload());
    assert!(!DecodedVideoSurfaceFormat::Other.supports_native_gpu_payload());
}

#[test]
fn native_high_bit_surface_matrix_has_exact_physical_descriptors() {
    for (format, model, chroma, layout, bits, alpha) in [
        (
            DecodedVideoSurfaceFormat::P012,
            DecodedVideoSurfaceColorModel::Ycbcr,
            Some(DecodedVideoSurfaceChromaSubsampling::Cs420),
            DecodedVideoSurfacePlaneLayout::SemiPlanar,
            12,
            false,
        ),
        (
            DecodedVideoSurfaceFormat::P016,
            DecodedVideoSurfaceColorModel::Ycbcr,
            Some(DecodedVideoSurfaceChromaSubsampling::Cs420),
            DecodedVideoSurfacePlaneLayout::SemiPlanar,
            16,
            false,
        ),
        (
            DecodedVideoSurfaceFormat::P210,
            DecodedVideoSurfaceColorModel::Ycbcr,
            Some(DecodedVideoSurfaceChromaSubsampling::Cs422),
            DecodedVideoSurfacePlaneLayout::SemiPlanar,
            10,
            false,
        ),
        (
            DecodedVideoSurfaceFormat::P212,
            DecodedVideoSurfaceColorModel::Ycbcr,
            Some(DecodedVideoSurfaceChromaSubsampling::Cs422),
            DecodedVideoSurfacePlaneLayout::SemiPlanar,
            12,
            false,
        ),
        (
            DecodedVideoSurfaceFormat::P216,
            DecodedVideoSurfaceColorModel::Ycbcr,
            Some(DecodedVideoSurfaceChromaSubsampling::Cs422),
            DecodedVideoSurfacePlaneLayout::SemiPlanar,
            16,
            false,
        ),
        (
            DecodedVideoSurfaceFormat::P410,
            DecodedVideoSurfaceColorModel::Ycbcr,
            Some(DecodedVideoSurfaceChromaSubsampling::Cs444),
            DecodedVideoSurfacePlaneLayout::SemiPlanar,
            10,
            false,
        ),
        (
            DecodedVideoSurfaceFormat::P412,
            DecodedVideoSurfaceColorModel::Ycbcr,
            Some(DecodedVideoSurfaceChromaSubsampling::Cs444),
            DecodedVideoSurfacePlaneLayout::SemiPlanar,
            12,
            false,
        ),
        (
            DecodedVideoSurfaceFormat::P416,
            DecodedVideoSurfaceColorModel::Ycbcr,
            Some(DecodedVideoSurfaceChromaSubsampling::Cs444),
            DecodedVideoSurfacePlaneLayout::SemiPlanar,
            16,
            false,
        ),
        (
            DecodedVideoSurfaceFormat::Y210,
            DecodedVideoSurfaceColorModel::Ycbcr,
            Some(DecodedVideoSurfaceChromaSubsampling::Cs422),
            DecodedVideoSurfacePlaneLayout::PackedYuv422,
            10,
            false,
        ),
        (
            DecodedVideoSurfaceFormat::Y212,
            DecodedVideoSurfaceColorModel::Ycbcr,
            Some(DecodedVideoSurfaceChromaSubsampling::Cs422),
            DecodedVideoSurfacePlaneLayout::PackedYuv422,
            12,
            false,
        ),
        (
            DecodedVideoSurfaceFormat::Xv30,
            DecodedVideoSurfaceColorModel::Ycbcr,
            Some(DecodedVideoSurfaceChromaSubsampling::Cs444),
            DecodedVideoSurfacePlaneLayout::PackedYuv444,
            10,
            false,
        ),
        (
            DecodedVideoSurfaceFormat::Xv36,
            DecodedVideoSurfaceColorModel::Ycbcr,
            Some(DecodedVideoSurfaceChromaSubsampling::Cs444),
            DecodedVideoSurfacePlaneLayout::PackedYuv444,
            12,
            false,
        ),
        (
            DecodedVideoSurfaceFormat::Rgba16Float,
            DecodedVideoSurfaceColorModel::Rgb,
            None,
            DecodedVideoSurfacePlaneLayout::PackedRgba,
            16,
            true,
        ),
        (
            DecodedVideoSurfaceFormat::Rgba32Float,
            DecodedVideoSurfaceColorModel::Rgb,
            None,
            DecodedVideoSurfacePlaneLayout::PackedRgba,
            32,
            true,
        ),
    ] {
        let descriptor = format.descriptor().expect("modeled native format");
        assert_eq!(descriptor.color_model, model, "{format:?}");
        assert_eq!(descriptor.chroma_subsampling, chroma, "{format:?}");
        assert_eq!(descriptor.plane_layout, layout, "{format:?}");
        assert_eq!(descriptor.component_bit_depth, bits, "{format:?}");
        assert_eq!(descriptor.has_alpha, alpha, "{format:?}");
        assert!(descriptor.native_gpu_payload, "{format:?}");
    }
}

#[test]
fn hw_accel_backend_has_stable_names() {
    assert_eq!(HwAccelBackend::Absent.as_str(), "None");
    assert_eq!(HwAccelBackend::Cuda.as_str(), "Cuda");
    assert_eq!(HwAccelBackend::D3D12VA.as_str(), "D3D12VA");
    assert_eq!(HwAccelBackend::D3D11VA.as_str(), "D3D11VA");
    assert_eq!(HwAccelBackend::Dxva2.as_str(), "DXVA2");
    assert_eq!(HwAccelBackend::VideoToolbox.as_str(), "VideoToolbox");
    assert_eq!(HwAccelBackend::Vaapi.as_str(), "Vaapi");
    assert_eq!(HwAccelBackend::Vdpau.as_str(), "VDPAU");
}

#[test]
fn platform_hardware_backend_candidates_are_ordered_by_expected_native_path() {
    assert_eq!(
        HwAccelBackend::platform_candidates(Platform::Windows),
        vec![
            HwAccelBackend::D3D12VA,
            HwAccelBackend::D3D11VA,
            HwAccelBackend::Dxva2
        ]
    );
    assert_eq!(
        HwAccelBackend::platform_candidates(Platform::MacOs),
        vec![HwAccelBackend::VideoToolbox]
    );
    assert_eq!(
        HwAccelBackend::platform_candidates(Platform::Linux),
        vec![HwAccelBackend::Vaapi, HwAccelBackend::Vdpau]
    );
    assert!(HwAccelBackend::platform_candidates(Platform::Other).is_empty());
    assert_eq!(Platform::from_name("windows"), Platform::Windows);
    assert_eq!(Platform::from_name("macos"), Platform::MacOs);
    assert_eq!(Platform::from_name("linux"), Platform::Linux);
    assert_eq!(Platform::from_name("freebsd"), Platform::Other);
    assert_eq!(HwAccelBackend::detect(Platform::MacOs), HwAccelBackend::Absent);
}

#[test]
fn packed_and_planar_surfaces_have_their_own_descriptors() {
    let nv12 = DecodedVideoSurfaceFormat::Nv12.descriptor().expect("modeled format");
    assert_eq!(nv12.numeric_encoding, DecodedVideoSurfaceNumericEncoding::Unorm8);
    assert_eq!(nv12.component_bit_depth, 8);
    let p010 = DecodedVideoSurfaceFormat::P010.descriptor().expect("modeled format");
    assert_eq!(
        p010.numeric_encoding,
        DecodedVideoSurfaceNumericEncoding::Unorm16 { most_significant_bits: true }
    );
    let planar = DecodedVideoSurfaceFormat::Yuv422p10le.descriptor().expect("modeled format");
    assert_eq!(planar.plane_layout, DecodedVideoSurfacePlaneLayout::Planar);
    assert!(!planar.native_gpu_payload);
    let bgra = DecodedVideoSurfaceFormat::Bgra8.descriptor().expect("modeled format");
    assert_eq!(bgra.color_model, DecodedVideoSurfaceColorModel::Rgb);
    assert_eq!(bgra.chroma_subsampling, None::<DecodedVideoSurfaceChromaSubsampling>);
    assert_eq!(DecodedVideoSurfaceFormat::Unknown.descriptor(), None);
    assert_eq!(DecodedVideoSurfaceFormat::Xv36.fixed_bit_depth(), Some(12));
    assert_eq!(DecodedVideoSurfaceFormat::Other.fixed_bit_depth(), None);
}

#[test]
fn range_tags_of_a_decoder_are_read_exactly() {
    assert_eq!(
        decoded_video_range_from_ffmpeg(DecoderRangeTag::Mpeg),
        DecodedVideoRange::Limited
    );
    assert_eq!(decoded_video_range_from_ffmpeg(DecoderRangeTag::Jpeg), DecodedVideoRange::Full);
    assert_eq!(
        decoded_video_range_from_ffmpeg(DecoderRangeTag::Unspecified),
        DecodedVideoRange::Unknown
    );
    let limited = DecodedVideoRangeContract::from_interpretation(
        MediaRangeInterpretation::Override { range: MediaSignalRange::Limited },
        DecodedVideoRange::Full,
    );
    assert_eq!(limited.baseline(), DecodedVideoRange::Limited);
    assert_eq!(limited.resolve_for_frame(DecodedVideoRange::Full), DecodedVideoRange::Limited);
}

#[test]
fn device_creation_failures_delay_the_next_try() {
    let backend = HwAccelBackend::Vaapi;
    let mut pool = HwDeviceContextPool::new(HwDeviceContextPoolPolicy::default());
    let mut now: u64 = 0;
    for failure in 0..4u64 {
        let ticket = match pool.begin_acquire(backend, None, true, true, now) {
            AcquireStart::Create(ticket) => ticket,
            _ => panic!("the delay is over"),
        };
        let probe = pool
            .finish_acquire(
                ticket,
                RootCreation::Failed { code: -1, text: "no device".to_owned() },
                now,
            )
            .expect_err("creation failed");
        assert_eq!(probe.device_create_error_code, Some(-1));
        assert_eq!(pool.diagnostics(0).creation_failures, failure + 1);
        assert!(matches!(
            pool.begin_acquire(backend, None, true, true, now + 1),
            AcquireStart::Refused(_)
        ));
        now += 60_000_000_000;
    }
    assert_eq!(pool.diagnostics(0).backoff_rejections, 4);
}

#[test]
fn missing_device_contexts_are_failures() {
    let mut pool = HwDeviceContextPool::new(HwDeviceContextPoolPolicy::default());
    let ticket = match pool.begin_acquire(HwAccelBackend::Vdpau, None, true, true, 0) {
        AcquireStart::Create(ticket) => ticket,
        _ => panic!("nothing to reuse"),
    };
    let probe = pool.finish_acquire(ticket, RootCreation::Missing, 0).expect_err("no context");
    assert!(probe.reason.contains("returned no VDPAU"));
    assert!(matches!(
        pool.begin_acquire(HwAccelBackend::Absent, None, true, true, 0),
        AcquireStart::Refused(_)
    ));
}

#[test]
fn renderer_contexts_replace_each_other() {
    let selector = HwAccelDeviceSelector::D3D12VaAdapterIndex(1);
    let mut pool = HwDeviceContextPool::new(HwDeviceContextPoolPolicy::default());
    assert_eq!(
        pool.install_renderer_device_context(selector, HwAccelBackend::D3D11VA, 5, true),
        Err(RendererHwAccelDeviceContextInstallError::SelectorMismatch {
            selector,
            backend: HwAccelBackend::D3D11VA
        })
    );
    assert_eq!(
        pool.install_renderer_device_context(selector, HwAccelBackend::D3D12VA, 5, true),
        Ok(true)
    );
    let lease = match pool.begin_acquire(HwAccelBackend::D3D12VA, Some(selector), true, true, 0) {
        AcquireStart::Reused(lease) => lease,
        _ => panic!("the renderer's context is there"),
    };
    assert_eq!(lease.root, 5);
    assert_eq!(
        lease.key,
        DeviceKey { backend: HwAccelBackend::D3D12VA, selector: Some(selector) }
    );
    assert!(pool.is_current_generation(&lease));
    assert!(pool.retire_renderer_device_context(selector));
    assert!(!pool.is_current_generation(&lease));
    assert!(!pool.retire_renderer_device_context(selector));
}

#[test]
fn renderer_contexts_are_not_idle_while_anyone_holds_them() {
    let selector = HwAccelDeviceSelector::D3D12VaAdapterIndex(0);
    let backend = HwAccelBackend::D3D12VA;
    let mut pool = HwDeviceContextPool::new(HwDeviceContextPoolPolicy::new(0));
    assert_eq!(pool.install_renderer_device_context(selector, backend, 7, true), Ok(true));
    let lease = match pool.begin_acquire(backend, Some(selector), true, true, 0) {
        AcquireStart::Reused(lease) => lease,
        _ => panic!("the renderer's context is there"),
    };
    assert!(pool.retire_renderer_device_context(selector));
    assert_eq!(pool.install_renderer_device_context(selector, backend, 7, false), Ok(true));
    assert_eq!(pool.install_renderer_device_context(selector, backend, 7, false), Ok(false));
    assert!(!pool.is_current_generation(&lease));

    pool.let_go(7);
    pool.release_idle();
    assert_eq!(pool.diagnostics(0).active_contexts, 1);
    pool.release(lease);
    assert_eq!(pool.diagnostics(0).idle_contexts, 1);
    pool.release_idle();
    assert_eq!(pool.diagnostics(0).entries, 0);
    assert_eq!(pool.diagnostics(0).evictions, 1);
    assert_eq!(pool.diagnostics(0).retirements, 1);
}

#[test]
fn renderer_context_failures_have_texts() {
    assert_eq!(
        RendererHwAccelDeviceContextInstallError::SelectorMismatch {
            selector: HwAccelDeviceSelector::D3D12VaAdapterIndex(3),
            backend: HwAccelBackend::Dxva2,
        }
        .message(),
        "hardware selector D3D12VaAdapterIndex(3) does not select renderer device backend Dxva2"
    );
    assert_eq!(
        RendererHwAccelDeviceContextInstallError::GenerationExhausted.message(),
        "hardware device-context generation space is exhausted"
    );
    assert_eq!(
        check_renderer_device(RendererDeviceCreation::NotAllocated),
        Err(RendererHwAccelDeviceContextCreateError::AllocationFailed)
    );
    assert_eq!(
        check_renderer_device(RendererDeviceCreation::Incomplete),
        Err(RendererHwAccelDeviceContextCreateError::InvalidAllocation)
    );
    assert_eq!(
        check_renderer_device(RendererDeviceCreation::Initialized {
            code: 0,
            text: String::new()
        }),
        Ok(())
    );
    let rejected = check_renderer_device(RendererDeviceCreation::Initialized {
        code: -22,
        text: "Invalid argument".to_owned(),
    })
    .expect_err("a negative code");
    assert_eq!(
        rejected.message(),
        "FFmpeg could not initialize the renderer-owned D3D12VA device context: Invalid argument"
    );
}

#[test]
fn codec_config_methods_are_single_bits() {
    assert_eq!(
        HwAccelCodecConfigMethods::from_bits(5),
        HwAccelCodecConfigMethods {
            hw_device_ctx: true,
            hw_frames_ctx: false,
            internal: true,
            ad_hoc: false
        }
    );
    assert_eq!(
        HwAccelCodecConfigMethods::from_bits(10),
        HwAccelCodecConfigMethods {
            hw_device_ctx: false,
            hw_frames_ctx: true,
            internal: false,
            ad_hoc: true
        }
    );
}
