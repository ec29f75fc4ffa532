//! Hardware decode backends: which there are, what they produce, and what probing a
//! machine says of them.

use crate::decoder::surface::{DecodedFrameResidency, DecodedVideoSurfaceFormat};
use crate::text::{decimal, push_decimal, same_text};
use vstd::prelude::*;
use vstd::string::*;

verus! {

/// Hardware acceleration backend family.
#[derive(Debug, Clone, Copy, PartialEq, Eq, Hash, Structural, Default)]
pub enum HwAccelBackend {
    /// CPU software decode.
    #[default]
    Absent,
    /// NVIDIA NVDEC.
    Cuda,
    /// Windows Direct3D 12 Video Acceleration.
    D3D12VA,
    /// Windows DirectX 11 Video Acceleration.
    D3D11VA,
    /// Legacy Windows DirectX Video Acceleration 2.
    Dxva2,
    /// macOS and iOS VideoToolbox.
    VideoToolbox,
    /// Linux VA-API.
    Vaapi,
    /// Legacy Linux VDPAU.
    Vdpau,
}

impl HwAccelBackend {
    /// Stable backend name for telemetry.
    pub open spec fn spec_name(self) -> Seq<char> {
        match self {
            HwAccelBackend::Absent => "None"@,
            HwAccelBackend::Cuda => "Cuda"@,
            HwAccelBackend::D3D12VA => "D3D12VA"@,
            HwAccelBackend::D3D11VA => "D3D11VA"@,
            HwAccelBackend::Dxva2 => "DXVA2"@,
            HwAccelBackend::VideoToolbox => "VideoToolbox"@,
            HwAccelBackend::Vaapi => "Vaapi"@,
            HwAccelBackend::Vdpau => "VDPAU"@,
        }
    }

    /// Stable backend name for telemetry.
    pub fn as_str(self) -> (name: &'static str)
        ensures
            name@ == self.spec_name(),
    {
        match self {
            HwAccelBackend::Absent => "None",
            HwAccelBackend::Cuda => "Cuda",
            HwAccelBackend::D3D12VA => "D3D12VA",
            HwAccelBackend::D3D11VA => "D3D11VA",
            HwAccelBackend::Dxva2 => "DXVA2",
            HwAccelBackend::VideoToolbox => "VideoToolbox",
            HwAccelBackend::Vaapi => "Vaapi",
            HwAccelBackend::Vdpau => "VDPAU",
        }
    }
    /// The name of the backend in this library.
    pub open spec fn spec_label(self) -> Seq<char> {
        match self {
            HwAccelBackend::Dxva2 => "Dxva2"@,
            HwAccelBackend::Vdpau => "Vdpau"@,
            other => other.spec_name(),
        }
    }

    /// The name of the backend in this library.
    pub fn label(self) -> (name: &'static str)
        ensures
            name@ == self.spec_label(),
    {
        match self {
            HwAccelBackend::Dxva2 => "Dxva2",
            HwAccelBackend::Vdpau => "Vdpau",
            other => other.as_str(),
        }
    }
}

/// Device selection that the renderer supplies, for one backend each.
#[derive(Debug, Clone, Copy, PartialEq, Eq, Hash, Structural)]
pub enum HwAccelDeviceSelector {
    /// Adapter index for the creation of D3D12VA devices.
    D3D12VaAdapterIndex(u32),
    /// Adapter index for the creation of D3D11VA devices.
    D3D11VaAdapterIndex(u32),
}

impl HwAccelDeviceSelector {
    /// The one backend that a selector is for.
    pub open spec fn selected_backend(self) -> HwAccelBackend {
        match self {
            HwAccelDeviceSelector::D3D12VaAdapterIndex(_) => HwAccelBackend::D3D12VA,
            HwAccelDeviceSelector::D3D11VaAdapterIndex(_) => HwAccelBackend::D3D11VA,
        }
    }

    /// The adapter that a selector names.
    pub open spec fn adapter(self) -> u32 {
        match self {
            HwAccelDeviceSelector::D3D12VaAdapterIndex(index) => index,
            HwAccelDeviceSelector::D3D11VaAdapterIndex(index) => index,
        }
    }

    /// The text of a selector.
    pub open spec fn spec_text(self) -> Seq<char> {
        match self {
            HwAccelDeviceSelector::D3D12VaAdapterIndex(index) => "D3D12VaAdapterIndex("@ + decimal(
                index as nat,
            ) + ")"@,
            HwAccelDeviceSelector::D3D11VaAdapterIndex(index) => "D3D11VaAdapterIndex("@ + decimal(
                index as nat,
            ) + ")"@,
        }
    }

    /// The one backend that this selector is for.
    pub fn backend(self) -> (r: HwAccelBackend)
        ensures
            r == self.selected_backend(),
    {
        match self {
            HwAccelDeviceSelector::D3D12VaAdapterIndex(_) => HwAccelBackend::D3D12VA,
            HwAccelDeviceSelector::D3D11VaAdapterIndex(_) => HwAccelBackend::D3D11VA,
        }
    }

    /// Whether this selector is for a backend.
    pub fn selects_backend(self, backend: HwAccelBackend) -> (r: bool)
        ensures
            r == (self.selected_backend() == backend),
    {
        self.backend() == backend
    }

    /// The name of the device in a backend, where this selector is for it.
    pub fn device_name_for(self, backend: HwAccelBackend) -> (r: Option<String>)
        ensures
            match r {
                Some(name) => self.selected_backend() == backend && name@ == decimal(
                    self.adapter() as nat,
                ),
                None => self.selected_backend() != backend,
            },
    {
        if !self.selects_backend(backend) {
            return None;
        }
        let index: u32 = match self {
            HwAccelDeviceSelector::D3D12VaAdapterIndex(index) => index,
            HwAccelDeviceSelector::D3D11VaAdapterIndex(index) => index,
        };
        let mut name = String::new();
        push_decimal(&mut name, index as u64);
        assert(name@ =~= decimal(index as nat));
        Some(name)
    }

    /// Writes the text of this selector.
    pub fn push_text(self, out: &mut String)
        ensures
            final(out)@ == old(out)@ + self.spec_text(),
    {
        match self {
            HwAccelDeviceSelector::D3D12VaAdapterIndex(index) => {
                out.append("D3D12VaAdapterIndex(");
                push_decimal(out, index as u64);
            },
            HwAccelDeviceSelector::D3D11VaAdapterIndex(index) => {
                out.append("D3D11VaAdapterIndex(");
                push_decimal(out, index as u64);
            },
        }
        out.append(")");
        assert(out@ =~= old(out)@ + self.spec_text());
    }
}

/// Hardware device types of the decoder library.
#[derive(Debug, Clone, Copy, PartialEq, Eq, Hash, Structural)]
pub enum HwDeviceType {
    Cuda,
    D3D12Va,
    D3D11Va,
    Dxva2,
    VideoToolbox,
    Vaapi,
    Vdpau,
}

/// Native hardware-frame handle family of a decoder. Whether a renderer can import it is
/// another question.
#[derive(Debug, Clone, Copy, PartialEq, Eq, Hash, Structural)]
pub enum DecodedGpuFrameHandleKind {
    /// Windows `ID3D12Resource`.
    D3D12Resource,
    /// Windows `ID3D11Texture2D`.
    D3D11Texture2D,
    /// Legacy Windows `IDirect3DSurface9`.
    Dxva2Surface,
    /// macOS and iOS `CVPixelBuffer`.
    CVPixelBuffer,
    /// Linux `VASurfaceID`.
    VaapiSurface,
    /// Legacy Linux `VdpVideoSurface`.
    VdpauVideoSurface,
    /// CUDA device allocation.
    CudaDeviceMemory,
}

impl DecodedGpuFrameHandleKind {
    /// Stable handle-kind name for telemetry.
    pub open spec fn spec_name(self) -> Seq<char> {
        match self {
            DecodedGpuFrameHandleKind::D3D12Resource => "D3D12Resource"@,
            DecodedGpuFrameHandleKind::D3D11Texture2D => "D3D11Texture2D"@,
            DecodedGpuFrameHandleKind::Dxva2Surface => "Dxva2Surface"@,
            DecodedGpuFrameHandleKind::CVPixelBuffer => "CVPixelBuffer"@,
            DecodedGpuFrameHandleKind::VaapiSurface => "VaapiSurface"@,
            DecodedGpuFrameHandleKind::VdpauVideoSurface => "VdpauVideoSurface"@,
            DecodedGpuFrameHandleKind::CudaDeviceMemory => "CudaDeviceMemory"@,
        }
    }

    /// Stable handle-kind name for telemetry.
    pub fn as_str(self) -> (name: &'static str)
        ensures
            name@ == self.spec_name(),
    {
        match self {
            DecodedGpuFrameHandleKind::D3D12Resource => "D3D12Resource",
            DecodedGpuFrameHandleKind::D3D11Texture2D => "D3D11Texture2D",
            DecodedGpuFrameHandleKind::Dxva2Surface => "Dxva2Surface",
            DecodedGpuFrameHandleKind::CVPixelBuffer => "CVPixelBuffer",
            DecodedGpuFrameHandleKind::VaapiSurface => "VaapiSurface",
            DecodedGpuFrameHandleKind::VdpauVideoSurface => "VdpauVideoSurface",
            DecodedGpuFrameHandleKind::CudaDeviceMemory => "CudaDeviceMemory",
        }
    }
}

/// Hardware pixel format that a codec configuration reports.
#[derive(Debug, Clone, Copy, PartialEq, Eq, Structural)]
pub enum HwAccelPixelFormat {
    D3D12,
    D3D11,
    /// Legacy D3D11VA surfaces.
    D3D11VA,
    /// Legacy DXVA2 surfaces.
    Dxva2,
    VideoToolbox,
    Vaapi,
    Vdpau,
    Cuda,
    /// A format that is not classified.
    Other(i32),
}

impl HwAccelPixelFormat {
    /// Stable hardware pixel-format name for telemetry.
    pub open spec fn spec_name(self) -> Seq<char> {
        match self {
            HwAccelPixelFormat::D3D12 => "D3D12"@,
            HwAccelPixelFormat::D3D11 => "D3D11"@,
            HwAccelPixelFormat::D3D11VA => "D3D11VA"@,
            HwAccelPixelFormat::Dxva2 => "DXVA2"@,
            HwAccelPixelFormat::VideoToolbox => "VideoToolbox"@,
            HwAccelPixelFormat::Vaapi => "Vaapi"@,
            HwAccelPixelFormat::Vdpau => "VDPAU"@,
            HwAccelPixelFormat::Cuda => "Cuda"@,
            HwAccelPixelFormat::Other(_) => "Other"@,
        }
    }

    /// Stable hardware pixel-format name for telemetry.
    pub fn as_str(self) -> (name: &'static str)
        ensures
            name@ == self.spec_name(),
    {
        match self {
            HwAccelPixelFormat::D3D12 => "D3D12",
            HwAccelPixelFormat::D3D11 => "D3D11",
            HwAccelPixelFormat::D3D11VA => "D3D11VA",
            HwAccelPixelFormat::Dxva2 => "DXVA2",
            HwAccelPixelFormat::VideoToolbox => "VideoToolbox",
            HwAccelPixelFormat::Vaapi => "Vaapi",
            HwAccelPixelFormat::Vdpau => "VDPAU",
            HwAccelPixelFormat::Cuda => "Cuda",
            HwAccelPixelFormat::Other(_) => "Other",
        }
    }
}

/// Setup methods that a codec configuration reports.
#[derive(Debug, Clone, Copy, PartialEq, Eq, Structural)]
pub struct HwAccelCodecConfigMethods {
    /// From a device context.
    pub hw_device_ctx: bool,
    /// From a frames context.
    pub hw_frames_ctx: bool,
    /// By the decoder library itself.
    pub internal: bool,
    /// By a legacy path.
    pub ad_hoc: bool,
}

/// No setup method at all.
pub open spec fn no_methods() -> HwAccelCodecConfigMethods {
    HwAccelCodecConfigMethods {
        hw_device_ctx: false,
        hw_frames_ctx: false,
        internal: false,
        ad_hoc: false,
    }
}

impl Default for HwAccelCodecConfigMethods {
    fn default() -> (r: HwAccelCodecConfigMethods)
        ensures
            r == no_methods(),
    {
        HwAccelCodecConfigMethods {
            hw_device_ctx: false,
            hw_frames_ctx: false,
            internal: false,
            ad_hoc: false,
        }
    }
}

impl HwAccelCodecConfigMethods {
    /// The methods that the bits of a codec configuration stand for.
    pub fn from_bits(bits: i32) -> (r: HwAccelCodecConfigMethods)
        ensures
            r.hw_device_ctx == (bits & 1 != 0),
            r.hw_frames_ctx == (bits & 2 != 0),
            r.internal == (bits & 4 != 0),
            r.ad_hoc == (bits & 8 != 0),
    {
        HwAccelCodecConfigMethods {
            hw_device_ctx: bits & 1 != 0,
            hw_frames_ctx: bits & 2 != 0,
            internal: bits & 4 != 0,
            ad_hoc: bits & 8 != 0,
        }
    }
}

/// Operating system family.
#[derive(Debug, Clone, Copy, PartialEq, Eq, Hash, Structural)]
pub enum Platform {
    Windows,
    MacOs,
    Linux,
    Other,
}

/// The operating system family that a name stands for.
pub open spec fn named_platform(name: Seq<char>) -> Platform {
    if name == "windows"@ {
        Platform::Windows
    } else if name == "macos"@ {
        Platform::MacOs
    } else if name == "linux"@ {
        Platform::Linux
    } else {
        Platform::Other
    }
}

impl Platform {
    /// The operating system family that a name stands for.
    pub fn from_name(name: &str) -> (r: Platform)
        ensures
            r == named_platform(name@),
    {
        if same_text(name, "windows") {
            Platform::Windows
        } else if same_text(name, "macos") {
            Platform::MacOs
        } else if same_text(name, "linux") {
            Platform::Linux
        } else {
            Platform::Other
        }
    }
}

/// Backends that are tried on a platform, the preferred one first.
pub open spec fn candidates(platform: Platform) -> Seq<HwAccelBackend> {
    match platform {
        Platform::Windows => seq![
            HwAccelBackend::D3D12VA,
            HwAccelBackend::D3D11VA,
            HwAccelBackend::Dxva2,
        ],
        Platform::MacOs => seq![HwAccelBackend::VideoToolbox],
        Platform::Linux => seq![HwAccelBackend::Vaapi, HwAccelBackend::Vdpau],
        Platform::Other => seq![],
    }
}

/// Native handle family of a backend.
pub open spec fn handle_kind(backend: HwAccelBackend) -> Option<DecodedGpuFrameHandleKind> {
    match backend {
        HwAccelBackend::Absent => None,
        HwAccelBackend::Cuda => Some(DecodedGpuFrameHandleKind::CudaDeviceMemory),
        HwAccelBackend::D3D12VA => Some(DecodedGpuFrameHandleKind::D3D12Resource),
        HwAccelBackend::D3D11VA => Some(DecodedGpuFrameHandleKind::D3D11Texture2D),
        HwAccelBackend::Dxva2 => Some(DecodedGpuFrameHandleKind::Dxva2Surface),
        HwAccelBackend::VideoToolbox => Some(DecodedGpuFrameHandleKind::CVPixelBuffer),
        HwAccelBackend::Vaapi => Some(DecodedGpuFrameHandleKind::VaapiSurface),
        HwAccelBackend::Vdpau => Some(DecodedGpuFrameHandleKind::VdpauVideoSurface),
    }
}

/// Device type of a backend. The decoder library has a D3D12VA type from some version on.
pub open spec fn device_type(backend: HwAccelBackend, has_d3d12: bool) -> Option<HwDeviceType> {
    match backend {
        HwAccelBackend::Absent => None,
        HwAccelBackend::Cuda => Some(HwDeviceType::Cuda),
        HwAccelBackend::D3D12VA => if has_d3d12 {
            Some(HwDeviceType::D3D12Va)
        } else {
            None
        },
        HwAccelBackend::D3D11VA => Some(HwDeviceType::D3D11Va),
        HwAccelBackend::Dxva2 => Some(HwDeviceType::Dxva2),
        HwAccelBackend::VideoToolbox => Some(HwDeviceType::VideoToolbox),
        HwAccelBackend::Vaapi => Some(HwDeviceType::Vaapi),
        HwAccelBackend::Vdpau => Some(HwDeviceType::Vdpau),
    }
}

/// Surface formats of a backend for native playback, the preferred one first.
pub open spec fn surface_formats(backend: HwAccelBackend) -> Seq<DecodedVideoSurfaceFormat> {
    match backend {
        HwAccelBackend::Absent | HwAccelBackend::Dxva2 | HwAccelBackend::Vdpau => seq![],
        HwAccelBackend::D3D12VA => seq![
            DecodedVideoSurfaceFormat::P010,
            DecodedVideoSurfaceFormat::Nv12,
        ],
        HwAccelBackend::D3D11VA => seq![
            DecodedVideoSurfaceFormat::Rgba16Float,
            DecodedVideoSurfaceFormat::Bgra8,
            DecodedVideoSurfaceFormat::Xv36,
            DecodedVideoSurfaceFormat::Xv30,
            DecodedVideoSurfaceFormat::Y212,
            DecodedVideoSurfaceFormat::Y210,
            DecodedVideoSurfaceFormat::P012,
            DecodedVideoSurfaceFormat::P010,
            DecodedVideoSurfaceFormat::Nv12,
        ],
        HwAccelBackend::VideoToolbox => seq![
            DecodedVideoSurfaceFormat::Bgra8,
            DecodedVideoSurfaceFormat::P416,
            DecodedVideoSurfaceFormat::P410,
            DecodedVideoSurfaceFormat::P216,
            DecodedVideoSurfaceFormat::P210,
            DecodedVideoSurfaceFormat::P010,
            DecodedVideoSurfaceFormat::Nv12,
        ],
        HwAccelBackend::Cuda => seq![
            DecodedVideoSurfaceFormat::P016,
            DecodedVideoSurfaceFormat::P010,
            DecodedVideoSurfaceFormat::Nv12,
        ],
        HwAccelBackend::Vaapi => seq![
            DecodedVideoSurfaceFormat::Bgra8,
            DecodedVideoSurfaceFormat::Rgba8,
            DecodedVideoSurfaceFormat::Xv36,
            DecodedVideoSurfaceFormat::Xv30,
            DecodedVideoSurfaceFormat::Y212,
            DecodedVideoSurfaceFormat::Y210,
            DecodedVideoSurfaceFormat::P012,
            DecodedVideoSurfaceFormat::P010,
            DecodedVideoSurfaceFormat::Nv12,
        ],
    }
}

/// Why hardware decode is not active on a platform.
pub open spec fn unavailable_reason(platform: Platform) -> Seq<char> {
    match platform {
        Platform::Windows => {
            "D3D12VA/D3D11VA hardware decode adapter and texture residency are not connected; using CPU RGBA decode"@
        },
        Platform::MacOs => {
            "VideoToolbox hardware decode adapter and texture residency are not connected; using CPU RGBA decode"@
        },
        Platform::Linux => {
            "VA-API hardware decode adapter and texture residency are not connected; using CPU RGBA decode"@
        },
        Platform::Other => {
            "hardware decode texture residency is not connected for this platform; using CPU RGBA decode"@
        },
    }
}

/// Hardware decode as it is on a platform.
#[derive(Debug, Clone, PartialEq, Eq)]
pub struct HwAccelProbe {
    /// Backends to try, the preferred one first.
    pub candidate_backends: Vec<HwAccelBackend>,
    /// The preferred backend.
    pub candidate_backend: Option<HwAccelBackend>,
    /// Its handle family.
    pub candidate_handle_kind: Option<DecodedGpuFrameHandleKind>,
    /// Its surface formats, the preferred one first.
    pub candidate_surface_formats: Vec<DecodedVideoSurfaceFormat>,
    /// Whether there is a decoder adapter for it.
    pub decoder_adapter_available: bool,
    /// The backend that is active.
    pub selected_backend: HwAccelBackend,
    pub hardware_decode_active: bool,
    /// Whether decoded frames stay on the GPU.
    pub zero_copy_active: bool,
    /// Where decoded frames live.
    pub frame_residency: DecodedFrameResidency,
    /// Handle family of decoded frames, where they are on the GPU.
    pub gpu_frame_handle_kind: Option<DecodedGpuFrameHandleKind>,
    pub reason: String,
}

/// Whether a probe tells what holds on a platform: there are candidates, and none of them
/// is active.
pub open spec fn probes_closed(probe: HwAccelProbe, platform: Platform) -> bool {
    let preferred = if candidates(platform).len() > 0 {
        Some(candidates(platform)[0])
    } else {
        None
    };
    &&& probe.candidate_backends@ == candidates(platform)
    &&& probe.candidate_backend == preferred
    &&& probe.candidate_handle_kind == (match preferred {
        Some(backend) => handle_kind(backend),
        None => None,
    })
    &&& probe.candidate_surface_formats@ == (match preferred {
        Some(backend) => surface_formats(backend),
        None => Seq::empty(),
    })
    &&& !probe.decoder_adapter_available
    &&& probe.selected_backend is Absent
    &&& !probe.hardware_decode_active
    &&& !probe.zero_copy_active
    &&& probe.frame_residency is CpuRgba
    &&& probe.gpu_frame_handle_kind is None
    &&& probe.reason@ == unavailable_reason(platform)
}

impl HwAccelBackend {
    /// Backends that are tried on a platform, the preferred one first. Probing a codec or a
    /// device may pass over an earlier one.
    pub fn platform_candidates(platform: Platform) -> (r: Vec<HwAccelBackend>)
        ensures
            r@ == candidates(platform),
    {
        let r = match platform {
            Platform::Windows => vec![
                HwAccelBackend::D3D12VA,
                HwAccelBackend::D3D11VA,
                HwAccelBackend::Dxva2,
            ],
            Platform::MacOs => vec![HwAccelBackend::VideoToolbox],
            Platform::Linux => vec![HwAccelBackend::Vaapi, HwAccelBackend::Vdpau],
            Platform::Other => Vec::new(),
        };
        assert(r@ =~= candidates(platform));
        r
    }

    /// The backend that is preferred on a platform.
    pub fn platform_candidate(platform: Platform) -> (r: Option<HwAccelBackend>)
        ensures
            r == (if candidates(platform).len() > 0 {
                Some(candidates(platform)[0])
            } else {
                None
            }),
    {
        let all = HwAccelBackend::platform_candidates(platform);
        if all.len() > 0 {
            Some(all[0])
        } else {
            None
        }
    }

    /// Native handle family of this backend.
    pub fn native_handle_kind(self) -> (r: Option<DecodedGpuFrameHandleKind>)
        ensures
            r == handle_kind(self),
    {
        match self {
            HwAccelBackend::Absent => None,
            HwAccelBackend::Cuda => Some(DecodedGpuFrameHandleKind::CudaDeviceMemory),
            HwAccelBackend::D3D12VA => Some(DecodedGpuFrameHandleKind::D3D12Resource),
            HwAccelBackend::D3D11VA => Some(DecodedGpuFrameHandleKind::D3D11Texture2D),
            HwAccelBackend::Dxva2 => Some(DecodedGpuFrameHandleKind::Dxva2Surface),
            HwAccelBackend::VideoToolbox => Some(DecodedGpuFrameHandleKind::CVPixelBuffer),
            HwAccelBackend::Vaapi => Some(DecodedGpuFrameHandleKind::VaapiSurface),
            HwAccelBackend::Vdpau => Some(DecodedGpuFrameHandleKind::VdpauVideoSurface),
        }
    }

    /// Device type of this backend, in a decoder library that has a D3D12VA type or not.
    pub fn to_ffmpeg_device_type(self, has_d3d12: bool) -> (r: Option<HwDeviceType>)
        ensures
            r == device_type(self, has_d3d12),
    {
        match self {
            HwAccelBackend::Absent => None,
            HwAccelBackend::Cuda => Some(HwDeviceType::Cuda),
            HwAccelBackend::D3D12VA => {
                if has_d3d12 {
                    Some(HwDeviceType::D3D12Va)
                } else {
                    None
                }
            },
            HwAccelBackend::D3D11VA => Some(HwDeviceType::D3D11Va),
            HwAccelBackend::Dxva2 => Some(HwDeviceType::Dxva2),
            HwAccelBackend::VideoToolbox => Some(HwDeviceType::VideoToolbox),
            HwAccelBackend::Vaapi => Some(HwDeviceType::Vaapi),
            HwAccelBackend::Vdpau => Some(HwDeviceType::Vdpau),
        }
    }

    /// Surface formats of this backend for native playback, the preferred one first.
    pub fn preferred_surface_formats(self) -> (r: Vec<DecodedVideoSurfaceFormat>)
        ensures
            r@ == surface_formats(self),
    {
        let r = match self {
            HwAccelBackend::Absent | HwAccelBackend::Dxva2 | HwAccelBackend::Vdpau => Vec::new(),
            HwAccelBackend::D3D12VA => vec![
                DecodedVideoSurfaceFormat::P010,
                DecodedVideoSurfaceFormat::Nv12,
            ],
            HwAccelBackend::D3D11VA => vec![
                DecodedVideoSurfaceFormat::Rgba16Float,
                DecodedVideoSurfaceFormat::Bgra8,
                DecodedVideoSurfaceFormat::Xv36,
                DecodedVideoSurfaceFormat::Xv30,
                DecodedVideoSurfaceFormat::Y212,
                DecodedVideoSurfaceFormat::Y210,
                DecodedVideoSurfaceFormat::P012,
                DecodedVideoSurfaceFormat::P010,
                DecodedVideoSurfaceFormat::Nv12,
            ],
            HwAccelBackend::VideoToolbox => vec![
                DecodedVideoSurfaceFormat::Bgra8,
                DecodedVideoSurfaceFormat::P416,
                DecodedVideoSurfaceFormat::P410,
                DecodedVideoSurfaceFormat::P216,
                DecodedVideoSurfaceFormat::P210,
                DecodedVideoSurfaceFormat::P010,
                DecodedVideoSurfaceFormat::Nv12,
            ],
            HwAccelBackend::Cuda => vec![
                DecodedVideoSurfaceFormat::P016,
                DecodedVideoSurfaceFormat::P010,
                DecodedVideoSurfaceFormat::Nv12,
            ],
            HwAccelBackend::Vaapi => vec![
                DecodedVideoSurfaceFormat::Bgra8,
                DecodedVideoSurfaceFormat::Rgba8,
                DecodedVideoSurfaceFormat::Xv36,
                DecodedVideoSurfaceFormat::Xv30,
                DecodedVideoSurfaceFormat::Y212,
                DecodedVideoSurfaceFormat::Y210,
                DecodedVideoSurfaceFormat::P012,
                DecodedVideoSurfaceFormat::P010,
                DecodedVideoSurfaceFormat::Nv12,
            ],
        };
        assert(r@ =~= surface_formats(self));
        r
    }

    /// Hardware decode as it is on a platform: preference alone never counts as active.
    pub fn probe(platform: Platform) -> (probe: HwAccelProbe)
        ensures
            probes_closed(probe, platform),
    {
        let all = HwAccelBackend::platform_candidates(platform);
        let preferred = if all.len() > 0 {
            Some(all[0])
        } else {
            None
        };
        let (kind, formats) = match preferred {
            Some(backend) => (backend.native_handle_kind(), backend.preferred_surface_formats()),
            None => (None, Vec::new()),
        };
        let reason = match platform {
            Platform::Windows => {
                "D3D12VA/D3D11VA hardware decode adapter and texture residency are not connected; using CPU RGBA decode".to_owned()
            },
            Platform::MacOs => {
                "VideoToolbox hardware decode adapter and texture residency are not connected; using CPU RGBA decode".to_owned()
            },
            Platform::Linux => {
                "VA-API hardware decode adapter and texture residency are not connected; using CPU RGBA decode".to_owned()
            },
            Platform::Other => {
                "hardware decode texture residency is not connected for this platform; using CPU RGBA decode".to_owned()
            },
        };
        HwAccelProbe {
            candidate_backends: all,
            candidate_backend: preferred,
            candidate_handle_kind: kind,
            candidate_surface_formats: formats,
            decoder_adapter_available: false,
            selected_backend: HwAccelBackend::Absent,
            hardware_decode_active: false,
            zero_copy_active: false,
            frame_residency: DecodedFrameResidency::CpuRgba,
            gpu_frame_handle_kind: None,
            reason,
        }
    }

    /// The backend that is active on a platform: none, until decoded frames stay on the GPU.
    pub fn detect(platform: Platform) -> (r: HwAccelBackend)
        ensures
            r is Absent,
    {
        HwAccelBackend::probe(platform).selected_backend
    }
}

/// Every native format that a backend prefers may be kept as a native payload.
pub proof fn preferred_formats_are_native(backend: HwAccelBackend, i: int)
    requires
        0 <= i < surface_formats(backend).len(),
    ensures
        surface_formats(backend)[i].spec_descriptor() matches Some(d) && d.native_gpu_payload,
{
}

/// What a decoder says of hardware decode of a codec on a backend.
#[derive(Debug, Clone, PartialEq, Eq)]
pub struct HwAccelCodecConfigProbe {
    pub backend: HwAccelBackend,
    /// Whether the backend has a device type.
    pub backend_maps_to_ffmpeg_device: bool,
    /// Whether the decoder library was built with that type.
    pub ffmpeg_device_type_available: bool,
    /// Whether there is a decoder for the codec.
    pub ffmpeg_decoder_available: bool,
    /// Whether the decoder has a configuration for the backend.
    pub ffmpeg_codec_config_available: bool,
    pub hw_pixel_format: Option<HwAccelPixelFormat>,
    pub methods: HwAccelCodecConfigMethods,
    pub reason: String,
}

/// A hardware configuration of a decoder.
#[derive(Debug, Clone, Copy, PartialEq, Eq, Structural)]
pub struct CodecConfig {
    /// The device type, where it is known.
    pub device_type: Option<HwDeviceType>,
    pub pixel_format: HwAccelPixelFormat,
    /// Bits of the setup methods.
    pub methods: i32,
}

/// What the decoder library says of a codec.
pub struct CodecFacts<'a> {
    /// Name of the codec.
    pub codec: &'a str,
    /// Whether the library lists the device type of the backend.
    pub device_type_listed: bool,
    /// Hardware configurations of the decoder, where there is a decoder.
    pub configs: Option<&'a [CodecConfig]>,
}

/// The first configuration for a device type.
pub open spec fn config_for(configs: Seq<CodecConfig>, wanted: HwDeviceType) -> Option<CodecConfig>
    decreases configs.len(),
{
    if configs.len() == 0 {
        None
    } else if configs.first().device_type == Some(wanted) {
        Some(configs.first())
    } else {
        config_for(configs.drop_first(), wanted)
    }
}

/// The text that a backend has no device type.
pub open spec fn unmapped_reason(backend: HwAccelBackend) -> Seq<char> {
    backend.spec_name() + " does not map to an FFmpeg hardware device"@
}

impl HwAccelBackend {
    fn unmapped_text(self) -> (r: String)
        ensures
            r@ == unmapped_reason(self),
    {
        let mut text = self.as_str().to_owned();
        text.append(" does not map to an FFmpeg hardware device");
        text
    }

    /// What a decoder says of hardware decode of a codec on this backend.
    pub fn probe_ffmpeg_codec_config(
        self,
        has_d3d12: bool,
        facts: &CodecFacts,
    ) -> (probe: HwAccelCodecConfigProbe)
        ensures
            probe.backend == self,
            match device_type(self, has_d3d12) {
                None => {
                    &&& !probe.backend_maps_to_ffmpeg_device
                    &&& !probe.ffmpeg_device_type_available
                    &&& !probe.ffmpeg_decoder_available
                    &&& !probe.ffmpeg_codec_config_available
                    &&& probe.hw_pixel_format is None
                    &&& probe.methods == no_methods()
                    &&& probe.reason@ == unmapped_reason(self)
                },
                Some(wanted) => {
                    &&& probe.backend_maps_to_ffmpeg_device
                    &&& probe.ffmpeg_device_type_available == facts.device_type_listed
                    &&& probe.ffmpeg_decoder_available == facts.configs is Some
                    &&& match facts.configs {
                        None => {
                            &&& !probe.ffmpeg_codec_config_available
                            &&& probe.hw_pixel_format is None
                            &&& probe.methods == no_methods()
                            &&& probe.reason@ == "FFmpeg decoder for "@ + facts.codec@
                                + " is unavailable"@
                        },
                        Some(configs) => match config_for(configs@, wanted) {
                            Some(config) => {
                                &&& probe.ffmpeg_codec_config_available
                                &&& probe.hw_pixel_format == Some(config.pixel_format)
                                &&& probe.methods.hw_device_ctx == (config.methods & 1 != 0)
                                &&& probe.methods.hw_frames_ctx == (config.methods & 2 != 0)
                                &&& probe.methods.internal == (config.methods & 4 != 0)
                                &&& probe.methods.ad_hoc == (config.methods & 8 != 0)
                                &&& probe.reason@
                                    == "FFmpeg decoder advertises a hardware config for this backend"@
                            },
                            None => {
                                &&& !probe.ffmpeg_codec_config_available
                                &&& probe.hw_pixel_format is None
                                &&& probe.methods == no_methods()
                                &&& probe.reason@ == "FFmpeg decoder for "@ + facts.codec@
                                    + " does not advertise "@ + self.spec_name()
                                    + " hardware config"@
                            },
                        },
                    }
                },
            },
    {
        let wanted = match self.to_ffmpeg_device_type(has_d3d12) {
            None => {
                return HwAccelCodecConfigProbe {
                    backend: self,
                    backend_maps_to_ffmpeg_device: false,
                    ffmpeg_device_type_available: false,
                    ffmpeg_decoder_available: false,
                    ffmpeg_codec_config_available: false,
                    hw_pixel_format: None,
                    methods: HwAccelCodecConfigMethods::default(),
                    reason: self.unmapped_text(),
                };
            },
            Some(wanted) => wanted,
        };
        let configs = match facts.configs {
            None => {
                let mut reason = "FFmpeg decoder for ".to_owned();
                reason.append(facts.codec);
                reason.append(" is unavailable");
                return HwAccelCodecConfigProbe {
                    backend: self,
                    backend_maps_to_ffmpeg_device: true,
                    ffmpeg_device_type_available: facts.device_type_listed,
                    ffmpeg_decoder_available: false,
                    ffmpeg_codec_config_available: false,
                    hw_pixel_format: None,
                    methods: HwAccelCodecConfigMethods::default(),
                    reason,
                };
            },
            Some(configs) => configs,
        };
        let len: usize = configs.len();
        let mut index: usize = 0;
        assert(configs@.skip(0) =~= configs@);
        while index < len
            invariant
                index <= len == configs@.len(),
                config_for(configs@, wanted) == config_for(configs@.skip(index as int), wanted),
                facts.configs == Some(configs),
                device_type(self, has_d3d12) == Some(wanted),
            decreases len - index,
        {
            assert(configs@.skip(index as int).drop_first() =~= configs@.skip(index + 1));
            let config = configs[index];
            if config.device_type == Some(wanted) {
                return HwAccelCodecConfigProbe {
                    backend: self,
                    backend_maps_to_ffmpeg_device: true,
                    ffmpeg_device_type_available: facts.device_type_listed,
                    ffmpeg_decoder_available: true,
                    ffmpeg_codec_config_available: true,
                    hw_pixel_format: Some(config.pixel_format),
                    methods: HwAccelCodecConfigMethods::from_bits(config.methods),
                    reason: "FFmpeg decoder advertises a hardware config for this backend".to_owned(),
                };
            }
            index += 1;
        }
        let mut reason = "FFmpeg decoder for ".to_owned();
        reason.append(facts.codec);
        reason.append(" does not advertise ");
        reason.append(self.as_str());
        reason.append(" hardware config");
        HwAccelCodecConfigProbe {
            backend: self,
            backend_maps_to_ffmpeg_device: true,
            ffmpeg_device_type_available: facts.device_type_listed,
            ffmpeg_decoder_available: true,
            ffmpeg_codec_config_available: false,
            hw_pixel_format: None,
            methods: HwAccelCodecConfigMethods::default(),
            reason,
        }
    }
}

/// What the creation of a device context on this machine came to.
#[derive(Debug, PartialEq, Eq)]
pub struct HwAccelDeviceContextProbe {
    pub backend: HwAccelBackend,
    /// Whether the backend has a device type.
    pub backend_maps_to_ffmpeg_device: bool,
    /// Whether the decoder library was built with that type.
    pub ffmpeg_device_type_available: bool,
    /// Whether creation was attempted.
    pub device_create_attempted: bool,
    /// Whether a context exists.
    pub device_context_created: bool,
    /// Error code of the creation, where there is one.
    pub device_create_error_code: Option<i32>,
    pub reason: String,
}

impl HwAccelDeviceContextProbe {
    /// Everything but the reason, which is text.
    pub open spec fn has(
        &self,
        backend: HwAccelBackend,
        maps: bool,
        listed: bool,
        attempted: bool,
        created: bool,
        code: Option<i32>,
    ) -> bool {
        &&& self.backend == backend
        &&& self.backend_maps_to_ffmpeg_device == maps
        &&& self.ffmpeg_device_type_available == listed
        &&& self.device_create_attempted == attempted
        &&& self.device_context_created == created
        &&& self.device_create_error_code == code
    }

    /// A copy.
    pub fn duplicate(&self) -> (r: HwAccelDeviceContextProbe)
        ensures
            r == *self,
    {
        HwAccelDeviceContextProbe {
            backend: self.backend,
            backend_maps_to_ffmpeg_device: self.backend_maps_to_ffmpeg_device,
            ffmpeg_device_type_available: self.ffmpeg_device_type_available,
            device_create_attempted: self.device_create_attempted,
            device_context_created: self.device_context_created,
            device_create_error_code: self.device_create_error_code,
            reason: self.reason.clone(),
        }
    }

    /// A backend that is not available.
    pub fn unavailable(backend: HwAccelBackend, has_d3d12: bool, reason: String) -> (r:
        HwAccelDeviceContextProbe)
        ensures
            r.has(backend, device_type(backend, has_d3d12) is Some, false, false, false, None),
            r.reason == reason,
    {
        HwAccelDeviceContextProbe {
            backend,
            backend_maps_to_ffmpeg_device: backend.to_ffmpeg_device_type(has_d3d12).is_some(),
            ffmpeg_device_type_available: false,
            device_create_attempted: false,
            device_context_created: false,
            device_create_error_code: None,
            reason,
        }
    }

    /// A backend whose device is not created for now.
    pub fn deferred(
        backend: HwAccelBackend,
        has_d3d12: bool,
        device_type_listed: bool,
        reason: String,
    ) -> (r: HwAccelDeviceContextProbe)
        ensures
            r.has(
                backend,
                device_type(backend, has_d3d12) is Some,
                device_type_listed,
                false,
                false,
                None,
            ),
            r.reason == reason,
    {
        HwAccelDeviceContextProbe {
            backend,
            backend_maps_to_ffmpeg_device: backend.to_ffmpeg_device_type(has_d3d12).is_some(),
            ffmpeg_device_type_available: device_type_listed,
            device_create_attempted: false,
            device_context_created: false,
            device_create_error_code: None,
            reason,
        }
    }

    /// A backend whose device is there.
    pub open spec fn spec_acquired(backend: HwAccelBackend, newly_created: bool, reason: String) -> HwAccelDeviceContextProbe {
        HwAccelDeviceContextProbe {
            backend,
            backend_maps_to_ffmpeg_device: true,
            ffmpeg_device_type_available: true,
            device_create_attempted: newly_created,
            device_context_created: true,
            device_create_error_code: None,
            reason,
        }
    }

    /// A backend whose device is there.
    pub fn acquired(backend: HwAccelBackend, newly_created: bool, reason: String) -> (r:
        HwAccelDeviceContextProbe)
        ensures
            r == HwAccelDeviceContextProbe::spec_acquired(backend, newly_created, reason),
    {
        HwAccelDeviceContextProbe {
            backend,
            backend_maps_to_ffmpeg_device: true,
            ffmpeg_device_type_available: true,
            device_create_attempted: newly_created,
            device_context_created: true,
            device_create_error_code: None,
            reason,
        }
    }
}

/// What creating a device context brought.
#[derive(Debug, PartialEq, Eq)]
pub enum DeviceCreation {
    /// An error code, with its text.
    Failed { code: i32, text: String },
    /// Success without a context.
    Missing,
    Created,
}

/// The text that a device type is not listed.
pub open spec fn unlisted_reason(backend: HwAccelBackend) -> Seq<char> {
    "linked FFmpeg build does not list "@ + backend.spec_name() + " hardware device type"@
}

/// The text of a failed creation.
pub open spec fn failed_reason(backend: HwAccelBackend, text: Seq<char>) -> Seq<char> {
    "FFmpeg could not create "@ + backend.spec_name() + " hardware device context: "@ + text
}

/// The text of a creation that brought nothing.
pub open spec fn missing_reason(backend: HwAccelBackend) -> Seq<char> {
    "FFmpeg reported success but returned no "@ + backend.spec_name()
        + " hardware device context"@
}

/// The text of a selector that is for another backend.
pub open spec fn mismatch_reason(
    selector: HwAccelDeviceSelector,
    backend: HwAccelBackend,
) -> Seq<char> {
    "hardware device selector "@ + selector.spec_text() + " does not select "@
        + backend.spec_name()
}

impl HwAccelBackend {
    /// The probe of a backend without a device type, or with one that is not listed; none
    /// where its device can be created.
    pub fn probe_device_type(self, has_d3d12: bool, device_type_listed: bool) -> (r: Option<
        HwAccelDeviceContextProbe,
    >)
        ensures
            match r {
                Some(probe) => if device_type(self, has_d3d12) is None {
                    &&& probe.has(self, false, false, false, false, None)
                    &&& probe.reason@ == unmapped_reason(self)
                } else {
                    &&& !device_type_listed
                    &&& probe.has(self, true, false, false, false, None)
                    &&& probe.reason@ == unlisted_reason(self)
                },
                None => device_type(self, has_d3d12) is Some && device_type_listed,
            },
    {
        if self.to_ffmpeg_device_type(has_d3d12).is_none() {
            return Some(
                HwAccelDeviceContextProbe::unavailable(self, has_d3d12, self.unmapped_text()),
            );
        }
        if !device_type_listed {
            let mut reason = "linked FFmpeg build does not list ".to_owned();
            reason.append(self.as_str());
            reason.append(" hardware device type");
            return Some(HwAccelDeviceContextProbe::deferred(self, has_d3d12, false, reason));
        }
        None
    }

    /// The probe of a creation that failed or brought nothing.
    pub fn probe_failed_creation(self, code: Option<i32>, text: &str) -> (probe:
        HwAccelDeviceContextProbe)
        ensures
            probe.has(self, true, true, true, false, code),
            probe.reason@ == (if code is Some {
                failed_reason(self, text@)
            } else {
                missing_reason(self)
            }),
    {
        let reason = if code.is_some() {
            let mut reason = "FFmpeg could not create ".to_owned();
            reason.append(self.as_str());
            reason.append(" hardware device context: ");
            reason.append(text);
            reason
        } else {
            let mut reason = "FFmpeg reported success but returned no ".to_owned();
            reason.append(self.as_str());
            reason.append(" hardware device context");
            reason
        };
        HwAccelDeviceContextProbe {
            backend: self,
            backend_maps_to_ffmpeg_device: true,
            ffmpeg_device_type_available: true,
            device_create_attempted: true,
            device_context_created: false,
            device_create_error_code: code,
            reason,
        }
    }

    /// The probe of a device context that is created and released again. `creation` is
    /// what that brought, where the device type is listed.
    pub fn probe_ffmpeg_device_context(
        self,
        has_d3d12: bool,
        device_type_listed: bool,
        creation: &DeviceCreation,
    ) -> (probe: HwAccelDeviceContextProbe)
        ensures
            if device_type(self, has_d3d12) is None {
                &&& probe.has(self, false, false, false, false, None)
                &&& probe.reason@ == unmapped_reason(self)
            } else if !device_type_listed {
                &&& probe.has(self, true, false, false, false, None)
                &&& probe.reason@ == unlisted_reason(self)
            } else {
                match *creation {
                    DeviceCreation::Failed { code, text } => {
                        &&& probe.has(self, true, true, true, false, Some(code))
                        &&& probe.reason@ == failed_reason(self, text@)
                    },
                    DeviceCreation::Missing => {
                        &&& probe.has(self, true, true, true, false, None)
                        &&& probe.reason@ == missing_reason(self)
                    },
                    DeviceCreation::Created => {
                        &&& probe.has(self, true, true, true, true, None)
                        &&& probe.reason@ == "FFmpeg created and released "@ + self.spec_name()
                            + " hardware device context"@
                    },
                }
            },
    {
        match self.probe_device_type(has_d3d12, device_type_listed) {
            Some(probe) => return probe,
            None => {},
        }
        match creation {
            DeviceCreation::Failed { code, text } => self.probe_failed_creation(
                Some(*code),
                text.as_str(),
            ),
            DeviceCreation::Missing => self.probe_failed_creation(None, ""),
            DeviceCreation::Created => {
                let mut reason = "FFmpeg created and released ".to_owned();
                reason.append(self.as_str());
                reason.append(" hardware device context");
                HwAccelDeviceContextProbe {
                    backend: self,
                    backend_maps_to_ffmpeg_device: true,
                    ffmpeg_device_type_available: true,
                    device_create_attempted: true,
                    device_context_created: true,
                    device_create_error_code: None,
                    reason,
                }
            },
        }
    }

    /// The probe of a selector that is for another backend; none where it fits.
    pub fn probe_selector(self, has_d3d12: bool, selector: Option<HwAccelDeviceSelector>) -> (r:
        Option<HwAccelDeviceContextProbe>)
        ensures
            match r {
                Some(probe) => {
                    &&& selector matches Some(chosen) && chosen.selected_backend() != self
                        && probe.reason@ == mismatch_reason(chosen, self)
                    &&& probe.has(
                        self,
                        device_type(self, has_d3d12) is Some,
                        false,
                        false,
                        false,
                        None,
                    )
                },
                None => selector matches Some(chosen) ==> chosen.selected_backend() == self,
            },
    {
        match selector {
            None => None,
            Some(chosen) => {
                if chosen.selects_backend(self) {
                    return None;
                }
                let mut reason = "hardware device selector ".to_owned();
                chosen.push_text(&mut reason);
                reason.append(" does not select ");
                reason.append(self.as_str());
                Some(HwAccelDeviceContextProbe::unavailable(self, has_d3d12, reason))
            },
        }
    }
}

/// The operating system whose frames a handle is of.
pub open spec fn home_of(kind: DecodedGpuFrameHandleKind) -> Option<Platform> {
    match kind {
        DecodedGpuFrameHandleKind::D3D12Resource
        | DecodedGpuFrameHandleKind::D3D11Texture2D
        | DecodedGpuFrameHandleKind::Dxva2Surface => Some(Platform::Windows),
        DecodedGpuFrameHandleKind::CVPixelBuffer => Some(Platform::MacOs),
        DecodedGpuFrameHandleKind::VaapiSurface
        | DecodedGpuFrameHandleKind::VdpauVideoSurface => Some(Platform::Linux),
        _ => None,
    }
}

/// A platform tries exactly the backends whose frames are its own, the newest first: those
/// before the legacy ones, and Direct3D 12 before 11.
pub proof fn platforms_try_their_own_backends(platform: Platform, backend: HwAccelBackend)
    ensures
        candidates(platform).contains(backend) <==> (handle_kind(backend) matches Some(kind)
            && home_of(kind) == Some(platform)),
        platform is Windows ==> candidates(platform).first() is D3D12VA && candidates(
            platform,
        ).last() is Dxva2,
        platform is Linux ==> candidates(platform).first() is Vaapi && candidates(platform).last()
            is Vdpau,
        platform is Other ==> candidates(platform).len() == 0,
{
    let tried = candidates(platform);
    match platform {
        Platform::Windows => {
            assert(tried[0] is D3D12VA && tried[1] is D3D11VA && tried[2] is Dxva2);
        },
        Platform::MacOs => {
            assert(tried[0] is VideoToolbox);
        },
        Platform::Linux => {
            assert(tried[0] is Vaapi && tried[1] is Vdpau);
        },
        Platform::Other => {},
    }
}

/// Frames of a backend are of one kind and of no other backend's, and so are its devices;
/// only software decode has neither, and Direct3D 12 has no device in older libraries.
pub proof fn backends_have_their_own_frames_and_devices(
    a: HwAccelBackend,
    b: HwAccelBackend,
    has_d3d12: bool,
)
    ensures
        handle_kind(a) is None <==> a is Absent,
        device_type(a, has_d3d12) is None <==> a is Absent || (a is D3D12VA && !has_d3d12),
        a != b && handle_kind(a) is Some ==> handle_kind(a) != handle_kind(b),
        a != b && device_type(a, has_d3d12) is Some ==> device_type(a, has_d3d12) != device_type(
            b,
            has_d3d12,
        ),
        device_type(a, has_d3d12) == Some(HwDeviceType::Cuda) <==> handle_kind(a) == Some(
            DecodedGpuFrameHandleKind::CudaDeviceMemory,
        ),
        device_type(a, has_d3d12) == Some(HwDeviceType::D3D12Va) ==> handle_kind(a) == Some(
            DecodedGpuFrameHandleKind::D3D12Resource,
        ),
        device_type(a, has_d3d12) == Some(HwDeviceType::D3D11Va) <==> handle_kind(a) == Some(
            DecodedGpuFrameHandleKind::D3D11Texture2D,
        ),
        device_type(a, has_d3d12) == Some(HwDeviceType::Dxva2) <==> handle_kind(a) == Some(
            DecodedGpuFrameHandleKind::Dxva2Surface,
        ),
        device_type(a, has_d3d12) == Some(HwDeviceType::VideoToolbox) <==> handle_kind(a) == Some(
            DecodedGpuFrameHandleKind::CVPixelBuffer,
        ),
        device_type(a, has_d3d12) == Some(HwDeviceType::Vaapi) <==> handle_kind(a) == Some(
            DecodedGpuFrameHandleKind::VaapiSurface,
        ),
        device_type(a, has_d3d12) == Some(HwDeviceType::Vdpau) <==> handle_kind(a) == Some(
            DecodedGpuFrameHandleKind::VdpauVideoSurface,
        ),
        handle_kind(HwAccelBackend::Cuda) == Some(DecodedGpuFrameHandleKind::CudaDeviceMemory),
        handle_kind(HwAccelBackend::D3D12VA) == Some(DecodedGpuFrameHandleKind::D3D12Resource),
        handle_kind(HwAccelBackend::D3D11VA) == Some(DecodedGpuFrameHandleKind::D3D11Texture2D),
        handle_kind(HwAccelBackend::VideoToolbox) == Some(DecodedGpuFrameHandleKind::CVPixelBuffer),
        handle_kind(HwAccelBackend::Vaapi) == Some(DecodedGpuFrameHandleKind::VaapiSurface),
{
}

/// How finely a format samples chroma: the finer the larger.
pub open spec fn chroma_fineness(format: DecodedVideoSurfaceFormat) -> int {
    match format.spec_descriptor() {
        Some(d) => match d.chroma_subsampling {
            Some(crate::decoder::surface::DecodedVideoSurfaceChromaSubsampling::Cs444) => 2,
            Some(crate::decoder::surface::DecodedVideoSurfaceChromaSubsampling::Cs422) => 1,
            Some(crate::decoder::surface::DecodedVideoSurfaceChromaSubsampling::Cs420) => 0,
            None => 3,
        },
        None => -1,
    }
}

/// A backend prefers the format that loses less: RGB before YCbCr, finer chroma before
/// coarser, and among formats with the same chroma more bits before fewer. Whatever prefers
/// anything falls back to ten and at last to eight bits in 4:2:0.
pub proof fn preferences_go_from_fine_to_coarse(backend: HwAccelBackend, i: int, j: int)
    requires
        0 <= i < j < surface_formats(backend).len(),
    ensures
        ({
            let list = surface_formats(backend);
            &&& chroma_fineness(list[i]) >= chroma_fineness(list[j])
            &&& chroma_fineness(list[i]) == chroma_fineness(list[j])
                ==> list[i].spec_descriptor().unwrap().component_bit_depth
                >= list[j].spec_descriptor().unwrap().component_bit_depth
            &&& list.last() is Nv12
            &&& list[list.len() - 2] is P010
        }),
{
}

/// A configuration is found exactly where one is for the device type, and it is the first
/// of them.
pub proof fn the_first_configuration_counts(configs: Seq<CodecConfig>, wanted: HwDeviceType)
    ensures
        match config_for(configs, wanted) {
            Some(found) => exists|i: int|
                0 <= i < configs.len() && #[trigger] configs[i] == found && found.device_type
                    == Some(wanted) && forall|j: int|
                    0 <= j < i ==> (#[trigger] configs[j]).device_type != Some(wanted),
            None => forall|j: int|
                0 <= j < configs.len() ==> (#[trigger] configs[j]).device_type != Some(wanted),
        },
    decreases configs.len(),
{
    if configs.len() > 0 {
        let rest = configs.drop_first();
        if configs.first().device_type == Some(wanted) {
            assert(configs[0] == configs.first());
        } else {
            the_first_configuration_counts(rest, wanted);
            match config_for(rest, wanted) {
                Some(found) => {
                    let i = choose|i: int|
                        0 <= i < rest.len() && #[trigger] rest[i] == found && found.device_type
                            == Some(wanted) && forall|j: int|
                            0 <= j < i ==> (#[trigger] rest[j]).device_type != Some(wanted);
                    assert(configs[i + 1] == found);
                    assert forall|j: int| 0 <= j < i + 1 implies (#[trigger] configs[j]).device_type
                        != Some(wanted) by {
                        if j > 0 {
                            assert(rest[j - 1] == configs[j]);
                        }
                    }
                },
                None => {
                    assert forall|j: int| 0 <= j < configs.len() implies (
                    #[trigger] configs[j]).device_type != Some(wanted) by {
                        if j > 0 {
                            assert(rest[j - 1] == configs[j]);
                        }
                    }
                },
            }
        }
    }
}

/// A platform is found by its name and by no other text.
pub proof fn platforms_have_one_name(name: Seq<char>)
    ensures
        named_platform(name) is Windows <==> name == "windows"@,
        named_platform(name) is MacOs <==> name == "macos"@,
        named_platform(name) is Linux <==> name == "linux"@,
{
    reveal_strlit("windows");
    reveal_strlit("macos");
    reveal_strlit("linux");
    assert("windows"@.len() == 7);
    assert("macos"@[0] != "linux"@[0]);
}

/// A selector is for the backend of its own name.
pub proof fn selectors_select_their_own_backend(selector: HwAccelDeviceSelector)
    ensures
        selector.selected_backend() is D3D12VA <==> selector is D3D12VaAdapterIndex,
        selector.selected_backend() is D3D11VA <==> selector is D3D11VaAdapterIndex,
        selector == HwAccelDeviceSelector::D3D12VaAdapterIndex(selector.adapter()) || selector
            == HwAccelDeviceSelector::D3D11VaAdapterIndex(selector.adapter()),
{
}

/// The name of a backend says which it is, and its label in this library does too.
pub proof fn backends_are_named_after_themselves(backend: HwAccelBackend)
    ensures
        backend is Absent ==> backend.spec_name() == "None"@,
        backend is Cuda ==> backend.spec_name() == "Cuda"@,
        backend is D3D12VA ==> backend.spec_name() == "D3D12VA"@,
        backend is D3D11VA ==> backend.spec_name() == "D3D11VA"@,
        backend is Dxva2 ==> backend.spec_name() == "DXVA2"@,
        backend is VideoToolbox ==> backend.spec_name() == "VideoToolbox"@,
        backend is Vaapi ==> backend.spec_name() == "Vaapi"@,
        backend is Vdpau ==> backend.spec_name() == "VDPAU"@,
        backend is Dxva2 ==> backend.spec_label() == "Dxva2"@,
        backend is Vdpau ==> backend.spec_label() == "Vdpau"@,
        !(backend is Dxva2) && !(backend is Vdpau) ==> backend.spec_label() == backend.spec_name(),
{
}

/// The name of a kind of handle says which it is.
pub proof fn handles_are_named_after_themselves(kind: DecodedGpuFrameHandleKind)
    ensures
        kind is D3D12Resource ==> kind.spec_name() == "D3D12Resource"@,
        kind is D3D11Texture2D ==> kind.spec_name() == "D3D11Texture2D"@,
        kind is Dxva2Surface ==> kind.spec_name() == "Dxva2Surface"@,
        kind is CVPixelBuffer ==> kind.spec_name() == "CVPixelBuffer"@,
        kind is VaapiSurface ==> kind.spec_name() == "VaapiSurface"@,
        kind is VdpauVideoSurface ==> kind.spec_name() == "VdpauVideoSurface"@,
        kind is CudaDeviceMemory ==> kind.spec_name() == "CudaDeviceMemory"@,
{
}

/// The name of a hardware format says which it is.
pub proof fn hardware_formats_are_named_after_themselves(format: HwAccelPixelFormat)
    ensures
        format is D3D12 ==> format.spec_name() == "D3D12"@,
        format is D3D11 ==> format.spec_name() == "D3D11"@,
        format is D3D11VA ==> format.spec_name() == "D3D11VA"@,
        format is Dxva2 ==> format.spec_name() == "DXVA2"@,
        format is VideoToolbox ==> format.spec_name() == "VideoToolbox"@,
        format is Vaapi ==> format.spec_name() == "Vaapi"@,
        format is Vdpau ==> format.spec_name() == "VDPAU"@,
        format is Cuda ==> format.spec_name() == "Cuda"@,
{
}

/// A closed probe tells what a platform would use, and that nothing of it is in use: its first
/// candidate with that one's handles and formats, no backend, and frames in main memory.
pub proof fn closed_probes_tell_candidates(probe: HwAccelProbe, platform: Platform)
    requires
        probes_closed(probe, platform),
    ensures
        probe.candidate_backends@ == candidates(platform),
        probe.candidate_backend is Some <==> probe.candidate_backends@.len() > 0,
        probe.candidate_backend is Some ==> probe.candidate_backend->0
            == probe.candidate_backends@[0],
        probe.candidate_backend is Some ==> probe.candidate_handle_kind == handle_kind(
            probe.candidate_backend->0,
        ) && probe.candidate_surface_formats@ == surface_formats(probe.candidate_backend->0),
        probe.candidate_backend is None ==> probe.candidate_handle_kind is None,
        !probe.decoder_adapter_available,
        !probe.hardware_decode_active,
        !probe.zero_copy_active,
        probe.selected_backend is Absent,
        probe.gpu_frame_handle_kind is None,
        probe.frame_residency is CpuRgba,
{
}

/// A device probe says what is said of it, each in its place.
pub proof fn device_probes_say_what_is_known(
    probe: HwAccelDeviceContextProbe,
    backend: HwAccelBackend,
    maps: bool,
    listed: bool,
    attempted: bool,
    created: bool,
    code: Option<i32>,
)
    requires
        probe.has(backend, maps, listed, attempted, created, code),
    ensures
        probe.backend == backend,
        probe.backend_maps_to_ffmpeg_device <==> maps,
        probe.ffmpeg_device_type_available <==> listed,
        probe.device_create_attempted <==> attempted,
        probe.device_context_created <==> created,
        probe.device_create_error_code == code,
        !no_methods().hw_device_ctx,
        !no_methods().hw_frames_ctx,
        !no_methods().internal,
        !no_methods().ad_hoc,
{
}

} // verus!