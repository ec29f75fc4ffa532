//! Surfaces that a decoder produces: where they live, and how their samples lie in memory.

use vstd::prelude::*;

verus! {

/// Where decoded frames live.
#[derive(Debug, Clone, Copy, PartialEq, Eq, Hash, Structural, Default)]
pub enum DecodedFrameResidency {
    /// Main memory, as 8-bit RGBA.
    #[default]
    CpuRgba,
    /// Main memory, as 32-bit float RGBA.
    CpuFloat,
    /// Main memory, as compact YUV planes.
    CpuYuv,
    /// A GPU texture or hardware frame.
    GpuTexture,
}

impl DecodedFrameResidency {
    /// Stable residency name for telemetry.
    pub open spec fn spec_name(self) -> Seq<char> {
        match self {
            DecodedFrameResidency::CpuRgba => "CpuRgba"@,
            DecodedFrameResidency::CpuFloat => "CpuFloat"@,
            DecodedFrameResidency::CpuYuv => "CpuYuv"@,
            DecodedFrameResidency::GpuTexture => "GpuTexture"@,
        }
    }

    /// Stable residency name for telemetry.
    pub fn as_str(self) -> (name: &'static str)
        ensures
            name@ == self.spec_name(),
    {
        match self {
            DecodedFrameResidency::CpuRgba => "CpuRgba",
            DecodedFrameResidency::CpuFloat => "CpuFloat",
            DecodedFrameResidency::CpuYuv => "CpuYuv",
            DecodedFrameResidency::GpuTexture => "GpuTexture",
        }
    }
}

/// Surface format of decoder output, before any conversion for previews.
#[derive(Debug, Clone, Copy, PartialEq, Eq, Hash, Structural, Default)]
pub enum DecodedVideoSurfaceFormat {
    /// Unknown, or not reported yet.
    #[default]
    Unknown,
    /// 8-bit two-plane YUV 4:2:0.
    Nv12,
    /// 10-bit two-plane YUV 4:2:0.
    P010,
    /// 12-bit two-plane YUV 4:2:0.
    P012,
    /// 16-bit two-plane YUV 4:2:0.
    P016,
    /// 10-bit two-plane YUV 4:2:2.
    P210,
    /// 12-bit two-plane YUV 4:2:2.
    P212,
    /// 16-bit two-plane YUV 4:2:2.
    P216,
    /// 10-bit two-plane YUV 4:4:4.
    P410,
    /// 12-bit two-plane YUV 4:4:4.
    P412,
    /// 16-bit two-plane YUV 4:4:4.
    P416,
    /// Packed 10-bit YCbCr 4:2:2.
    Y210,
    /// Packed 12-bit YCbCr 4:2:2.
    Y212,
    /// Packed 10-bit YCbCr 4:4:4.
    Xv30,
    /// Packed 12-bit YCbCr 4:4:4.
    Xv36,
    /// Planar 8-bit YUV 4:2:0.
    Yuv420p,
    /// Planar 10-bit YUV 4:2:0.
    Yuv420p10le,
    /// Planar 8-bit YUV 4:2:2.
    Yuv422p,
    /// Planar 10-bit YUV 4:2:2.
    Yuv422p10le,
    /// Packed 8-bit RGBA.
    Rgba8,
    /// Packed 8-bit BGRA.
    Bgra8,
    /// Packed half-float RGBA.
    Rgba16Float,
    /// Packed single-precision RGBA.
    Rgba32Float,
    /// Known, but not a native preview surface.
    Other,
}

impl DecodedVideoSurfaceFormat {
    /// Stable surface-format name for telemetry.
    pub open spec fn spec_name(self) -> Seq<char> {
        match self {
            DecodedVideoSurfaceFormat::Unknown => "Unknown"@,
            DecodedVideoSurfaceFormat::Nv12 => "Nv12"@,
            DecodedVideoSurfaceFormat::P010 => "P010"@,
            DecodedVideoSurfaceFormat::P012 => "P012"@,
            DecodedVideoSurfaceFormat::P016 => "P016"@,
            DecodedVideoSurfaceFormat::P210 => "P210"@,
            DecodedVideoSurfaceFormat::P212 => "P212"@,
            DecodedVideoSurfaceFormat::P216 => "P216"@,
            DecodedVideoSurfaceFormat::P410 => "P410"@,
            DecodedVideoSurfaceFormat::P412 => "P412"@,
            DecodedVideoSurfaceFormat::P416 => "P416"@,
            DecodedVideoSurfaceFormat::Y210 => "Y210"@,
            DecodedVideoSurfaceFormat::Y212 => "Y212"@,
            DecodedVideoSurfaceFormat::Xv30 => "Xv30"@,
            DecodedVideoSurfaceFormat::Xv36 => "Xv36"@,
            DecodedVideoSurfaceFormat::Yuv420p => "Yuv420p"@,
            DecodedVideoSurfaceFormat::Yuv420p10le => "Yuv420p10le"@,
            DecodedVideoSurfaceFormat::Yuv422p => "Yuv422p"@,
            DecodedVideoSurfaceFormat::Yuv422p10le => "Yuv422p10le"@,
            DecodedVideoSurfaceFormat::Rgba8 => "Rgba8"@,
            DecodedVideoSurfaceFormat::Bgra8 => "Bgra8"@,
            DecodedVideoSurfaceFormat::Rgba16Float => "Rgba16Float"@,
            DecodedVideoSurfaceFormat::Rgba32Float => "Rgba32Float"@,
            DecodedVideoSurfaceFormat::Other => "Other"@,
        }
    }

    /// Stable surface-format name for telemetry.
    pub fn as_str(self) -> (name: &'static str)
        ensures
            name@ == self.spec_name(),
    {
        match self {
            DecodedVideoSurfaceFormat::Unknown => "Unknown",
            DecodedVideoSurfaceFormat::Nv12 => "Nv12",
            DecodedVideoSurfaceFormat::P010 => "P010",
            DecodedVideoSurfaceFormat::P012 => "P012",
            DecodedVideoSurfaceFormat::P016 => "P016",
            DecodedVideoSurfaceFormat::P210 => "P210",
            DecodedVideoSurfaceFormat::P212 => "P212",
            DecodedVideoSurfaceFormat::P216 => "P216",
            DecodedVideoSurfaceFormat::P410 => "P410",
            DecodedVideoSurfaceFormat::P412 => "P412",
            DecodedVideoSurfaceFormat::P416 => "P416",
            DecodedVideoSurfaceFormat::Y210 => "Y210",
            DecodedVideoSurfaceFormat::Y212 => "Y212",
            DecodedVideoSurfaceFormat::Xv30 => "Xv30",
            DecodedVideoSurfaceFormat::Xv36 => "Xv36",
            DecodedVideoSurfaceFormat::Yuv420p => "Yuv420p",
            DecodedVideoSurfaceFormat::Yuv420p10le => "Yuv420p10le",
            DecodedVideoSurfaceFormat::Yuv422p => "Yuv422p",
            DecodedVideoSurfaceFormat::Yuv422p10le => "Yuv422p10le",
            DecodedVideoSurfaceFormat::Rgba8 => "Rgba8",
            DecodedVideoSurfaceFormat::Bgra8 => "Bgra8",
            DecodedVideoSurfaceFormat::Rgba16Float => "Rgba16Float",
            DecodedVideoSurfaceFormat::Rgba32Float => "Rgba32Float",
            DecodedVideoSurfaceFormat::Other => "Other",
        }
    }
}

/// Colour family of a decoded surface.
#[derive(Debug, Clone, Copy, PartialEq, Eq, Hash, Structural)]
pub enum DecodedVideoSurfaceColorModel {
    /// Luma with blue- and red-difference chroma.
    Ycbcr,
    /// Red, green and blue.
    Rgb,
}

/// Chroma grid of a decoded YCbCr surface.
#[derive(Debug, Clone, Copy, PartialEq, Eq, Hash, Structural)]
pub enum DecodedVideoSurfaceChromaSubsampling {
    /// One chroma sample covers two by two luma samples.
    Cs420,
    /// One chroma sample covers two luma samples of a row.
    Cs422,
    /// Chroma has the grid of luma.
    Cs444,
}

/// Plane organization of a decoded surface.
#[derive(Debug, Clone, Copy, PartialEq, Eq, Hash, Structural)]
pub enum DecodedVideoSurfacePlaneLayout {
    /// Luma, and interleaved chroma.
    SemiPlanar,
    /// Luma and two chroma planes.
    Planar,
    /// Packed YCbCr 4:2:2 words.
    PackedYuv422,
    /// Packed YCbCr 4:4:4 words.
    PackedYuv444,
    /// One packed RGBA plane.
    PackedRgba,
    /// One packed BGRA plane.
    PackedBgra,
}

/// Numeric representation of a component.
#[derive(Debug, Clone, Copy, PartialEq, Eq, Hash, Structural)]
pub enum DecodedVideoSurfaceNumericEncoding {
    /// Eight-bit unsigned normalized.
    Unorm8,
    /// Unsigned normalized in sixteen-bit words.
    Unorm16 {
        /// Whether the code bits occupy the most significant side.
        most_significant_bits: bool,
    },
    /// Integer codes in bit fields of the layout.
    PackedUnsigned,
    /// IEEE 754 binary16.
    Float16,
    /// IEEE 754 binary32.
    Float32,
}

/// Complete physical interpretation of a surface format.
#[derive(Debug, Clone, Copy, PartialEq, Eq, Hash, Structural)]
pub struct DecodedVideoSurfaceDescriptor {
    pub color_model: DecodedVideoSurfaceColorModel,
    /// Chroma grid for YCbCr, absent for RGB.
    pub chroma_subsampling: Option<DecodedVideoSurfaceChromaSubsampling>,
    pub plane_layout: DecodedVideoSurfacePlaneLayout,
    pub numeric_encoding: DecodedVideoSurfaceNumericEncoding,
    /// Effective bits of a component.
    pub component_bit_depth: u8,
    pub has_alpha: bool,
    /// Whether the surface may be kept as a native GPU payload.
    pub native_gpu_payload: bool,
}

/// The descriptor of a YCbCr surface.
pub open spec fn ycbcr(
    chroma: DecodedVideoSurfaceChromaSubsampling,
    layout: DecodedVideoSurfacePlaneLayout,
    encoding: DecodedVideoSurfaceNumericEncoding,
    bits: u8,
    native: bool,
) -> Option<DecodedVideoSurfaceDescriptor> {
    Some(
        DecodedVideoSurfaceDescriptor {
            color_model: DecodedVideoSurfaceColorModel::Ycbcr,
            chroma_subsampling: Some(chroma),
            plane_layout: layout,
            numeric_encoding: encoding,
            component_bit_depth: bits,
            has_alpha: false,
            native_gpu_payload: native,
        },
    )
}

/// The descriptor of an RGB surface with alpha.
pub open spec fn rgb(
    layout: DecodedVideoSurfacePlaneLayout,
    encoding: DecodedVideoSurfaceNumericEncoding,
    bits: u8,
) -> Option<DecodedVideoSurfaceDescriptor> {
    Some(
        DecodedVideoSurfaceDescriptor {
            color_model: DecodedVideoSurfaceColorModel::Rgb,
            chroma_subsampling: None,
            plane_layout: layout,
            numeric_encoding: encoding,
            component_bit_depth: bits,
            has_alpha: true,
            native_gpu_payload: true,
        },
    )
}

impl DecodedVideoSurfaceFormat {
    /// The physical interpretation of each modeled format.
    pub open spec fn spec_descriptor(self) -> Option<DecodedVideoSurfaceDescriptor> {
        match self {
            DecodedVideoSurfaceFormat::Unknown | DecodedVideoSurfaceFormat::Other => None,
            DecodedVideoSurfaceFormat::Nv12 => ycbcr(
                DecodedVideoSurfaceChromaSubsampling::Cs420,
                DecodedVideoSurfacePlaneLayout::SemiPlanar,
                DecodedVideoSurfaceNumericEncoding::Unorm8,
                8,
                true,
            ),
            DecodedVideoSurfaceFormat::P010 => ycbcr(
                DecodedVideoSurfaceChromaSubsampling::Cs420,
                DecodedVideoSurfacePlaneLayout::SemiPlanar,
                DecodedVideoSurfaceNumericEncoding::Unorm16 { most_significant_bits: true },
                10,
                true,
            ),
            DecodedVideoSurfaceFormat::P012 => ycbcr(
                DecodedVideoSurfaceChromaSubsampling::Cs420,
                DecodedVideoSurfacePlaneLayout::SemiPlanar,
                DecodedVideoSurfaceNumericEncoding::Unorm16 { most_significant_bits: true },
                12,
                true,
            ),
            DecodedVideoSurfaceFormat::P016 => ycbcr(
                DecodedVideoSurfaceChromaSubsampling::Cs420,
                DecodedVideoSurfacePlaneLayout::SemiPlanar,
                DecodedVideoSurfaceNumericEncoding::Unorm16 { most_significant_bits: false },
                16,
                true,
            ),
            DecodedVideoSurfaceFormat::P210 => ycbcr(
                DecodedVideoSurfaceChromaSubsampling::Cs422,
                DecodedVideoSurfacePlaneLayout::SemiPlanar,
                DecodedVideoSurfaceNumericEncoding::Unorm16 { most_significant_bits: true },
                10,
                true,
            ),
            DecodedVideoSurfaceFormat::P212 => ycbcr(
                DecodedVideoSurfaceChromaSubsampling::Cs422,
                DecodedVideoSurfacePlaneLayout::SemiPlanar,
                DecodedVideoSurfaceNumericEncoding::Unorm16 { most_significant_bits: true },
                12,
                true,
            ),
            DecodedVideoSurfaceFormat::P216 => ycbcr(
                DecodedVideoSurfaceChromaSubsampling::Cs422,
                DecodedVideoSurfacePlaneLayout::SemiPlanar,
                DecodedVideoSurfaceNumericEncoding::Unorm16 { most_significant_bits: false },
                16,
                true,
            ),
            DecodedVideoSurfaceFormat::P410 => ycbcr(
                DecodedVideoSurfaceChromaSubsampling::Cs444,
                DecodedVideoSurfacePlaneLayout::SemiPlanar,
                DecodedVideoSurfaceNumericEncoding::Unorm16 { most_significant_bits: true },
                10,
                true,
            ),
            DecodedVideoSurfaceFormat::P412 => ycbcr(
                DecodedVideoSurfaceChromaSubsampling::Cs444,
                DecodedVideoSurfacePlaneLayout::SemiPlanar,
                DecodedVideoSurfaceNumericEncoding::Unorm16 { most_significant_bits: true },
                12,
                true,
            ),
            DecodedVideoSurfaceFormat::P416 => ycbcr(
                DecodedVideoSurfaceChromaSubsampling::Cs444,
                DecodedVideoSurfacePlaneLayout::SemiPlanar,
                DecodedVideoSurfaceNumericEncoding::Unorm16 { most_significant_bits: false },
                16,
                true,
            ),
            DecodedVideoSurfaceFormat::Y210 => ycbcr(
                DecodedVideoSurfaceChromaSubsampling::Cs422,
                DecodedVideoSurfacePlaneLayout::PackedYuv422,
                DecodedVideoSurfaceNumericEncoding::Unorm16 { most_significant_bits: true },
                10,
                true,
            ),
            DecodedVideoSurfaceFormat::Y212 => ycbcr(
                DecodedVideoSurfaceChromaSubsampling::Cs422,
                DecodedVideoSurfacePlaneLayout::PackedYuv422,
                DecodedVideoSurfaceNumericEncoding::Unorm16 { most_significant_bits: true },
                12,
                true,
            ),
            DecodedVideoSurfaceFormat::Xv30 => ycbcr(
                DecodedVideoSurfaceChromaSubsampling::Cs444,
                DecodedVideoSurfacePlaneLayout::PackedYuv444,
                DecodedVideoSurfaceNumericEncoding::PackedUnsigned,
                10,
                true,
            ),
            DecodedVideoSurfaceFormat::Xv36 => ycbcr(
                DecodedVideoSurfaceChromaSubsampling::Cs444,
                DecodedVideoSurfacePlaneLayout::PackedYuv444,
                DecodedVideoSurfaceNumericEncoding::Unorm16 { most_significant_bits: true },
                12,
                true,
            ),
            DecodedVideoSurfaceFormat::Yuv420p => ycbcr(
                DecodedVideoSurfaceChromaSubsampling::Cs420,
                DecodedVideoSurfacePlaneLayout::Planar,
                DecodedVideoSurfaceNumericEncoding::Unorm8,
                8,
                false,
            ),
            DecodedVideoSurfaceFormat::Yuv420p10le => ycbcr(
                DecodedVideoSurfaceChromaSubsampling::Cs420,
                DecodedVideoSurfacePlaneLayout::Planar,
                DecodedVideoSurfaceNumericEncoding::Unorm16 { most_significant_bits: false },
                10,
                false,
            ),
            DecodedVideoSurfaceFormat::Yuv422p => ycbcr(
                DecodedVideoSurfaceChromaSubsampling::Cs422,
                DecodedVideoSurfacePlaneLayout::Planar,
                DecodedVideoSurfaceNumericEncoding::Unorm8,
                8,
                false,
            ),
            DecodedVideoSurfaceFormat::Yuv422p10le => ycbcr(
                DecodedVideoSurfaceChromaSubsampling::Cs422,
                DecodedVideoSurfacePlaneLayout::Planar,
                DecodedVideoSurfaceNumericEncoding::Unorm16 { most_significant_bits: false },
                10,
                false,
            ),
            DecodedVideoSurfaceFormat::Rgba8 => rgb(
                DecodedVideoSurfacePlaneLayout::PackedRgba,
                DecodedVideoSurfaceNumericEncoding::Unorm8,
                8,
            ),
            DecodedVideoSurfaceFormat::Bgra8 => rgb(
                DecodedVideoSurfacePlaneLayout::PackedBgra,
                DecodedVideoSurfaceNumericEncoding::Unorm8,
                8,
            ),
            DecodedVideoSurfaceFormat::Rgba16Float => rgb(
                DecodedVideoSurfacePlaneLayout::PackedRgba,
                DecodedVideoSurfaceNumericEncoding::Float16,
                16,
            ),
            DecodedVideoSurfaceFormat::Rgba32Float => rgb(
                DecodedVideoSurfacePlaneLayout::PackedRgba,
                DecodedVideoSurfaceNumericEncoding::Float32,
                32,
            ),
        }
    }

    /// The physical interpretation of this format, where it is modeled.
    pub fn descriptor(self) -> (r: Option<DecodedVideoSurfaceDescriptor>)
        ensures
            r == self.spec_descriptor(),
    {
        match self {
            DecodedVideoSurfaceFormat::Unknown | DecodedVideoSurfaceFormat::Other => None,
            DecodedVideoSurfaceFormat::Nv12 => Some(
                DecodedVideoSurfaceDescriptor {
                    color_model: DecodedVideoSurfaceColorModel::Ycbcr,
                    chroma_subsampling: Some(DecodedVideoSurfaceChromaSubsampling::Cs420),
                    plane_layout: DecodedVideoSurfacePlaneLayout::SemiPlanar,
                    numeric_encoding: DecodedVideoSurfaceNumericEncoding::Unorm8,
                    component_bit_depth: 8,
                    has_alpha: false,
                    native_gpu_payload: true,
                },
            ),
            DecodedVideoSurfaceFormat::P010 => Some(
                high_bit(DecodedVideoSurfaceChromaSubsampling::Cs420, 10),
            ),
            DecodedVideoSurfaceFormat::P012 => Some(
                high_bit(DecodedVideoSurfaceChromaSubsampling::Cs420, 12),
            ),
            DecodedVideoSurfaceFormat::P016 => Some(
                high_bit(DecodedVideoSurfaceChromaSubsampling::Cs420, 16),
            ),
            DecodedVideoSurfaceFormat::P210 => Some(
                high_bit(DecodedVideoSurfaceChromaSubsampling::Cs422, 10),
            ),
            DecodedVideoSurfaceFormat::P212 => Some(
                high_bit(DecodedVideoSurfaceChromaSubsampling::Cs422, 12),
            ),
            DecodedVideoSurfaceFormat::P216 => Some(
                high_bit(DecodedVideoSurfaceChromaSubsampling::Cs422, 16),
            ),
            DecodedVideoSurfaceFormat::P410 => Some(
                high_bit(DecodedVideoSurfaceChromaSubsampling::Cs444, 10),
            ),
            DecodedVideoSurfaceFormat::P412 => Some(
                high_bit(DecodedVideoSurfaceChromaSubsampling::Cs444, 12),
            ),
            DecodedVideoSurfaceFormat::P416 => Some(
                high_bit(DecodedVideoSurfaceChromaSubsampling::Cs444, 16),
            ),
            DecodedVideoSurfaceFormat::Y210 => Some(packed_422(10)),
            DecodedVideoSurfaceFormat::Y212 => Some(packed_422(12)),
            DecodedVideoSurfaceFormat::Xv30 => Some(
                packed_444(DecodedVideoSurfaceNumericEncoding::PackedUnsigned, 10),
            ),
            DecodedVideoSurfaceFormat::Xv36 => Some(
                packed_444(
                    DecodedVideoSurfaceNumericEncoding::Unorm16 { most_significant_bits: true },
                    12,
                ),
            ),
            DecodedVideoSurfaceFormat::Yuv420p => Some(
                planar(
                    DecodedVideoSurfaceChromaSubsampling::Cs420,
                    DecodedVideoSurfaceNumericEncoding::Unorm8,
                    8,
                ),
            ),
            DecodedVideoSurfaceFormat::Yuv420p10le => Some(
                planar(
                    DecodedVideoSurfaceChromaSubsampling::Cs420,
                    DecodedVideoSurfaceNumericEncoding::Unorm16 { most_significant_bits: false },
                    10,
                ),
            ),
            DecodedVideoSurfaceFormat::Yuv422p => Some(
                planar(
                    DecodedVideoSurfaceChromaSubsampling::Cs422,
                    DecodedVideoSurfaceNumericEncoding::Unorm8,
                    8,
                ),
            ),
            DecodedVideoSurfaceFormat::Yuv422p10le => Some(
                planar(
                    DecodedVideoSurfaceChromaSubsampling::Cs422,
                    DecodedVideoSurfaceNumericEncoding::Unorm16 { most_significant_bits: false },
                    10,
                ),
            ),
            DecodedVideoSurfaceFormat::Rgba8 => Some(
                packed_rgb(
                    DecodedVideoSurfacePlaneLayout::PackedRgba,
                    DecodedVideoSurfaceNumericEncoding::Unorm8,
                    8,
                ),
            ),
            DecodedVideoSurfaceFormat::Bgra8 => Some(
                packed_rgb(
                    DecodedVideoSurfacePlaneLayout::PackedBgra,
                    DecodedVideoSurfaceNumericEncoding::Unorm8,
                    8,
                ),
            ),
            DecodedVideoSurfaceFormat::Rgba16Float => Some(
                packed_rgb(
                    DecodedVideoSurfacePlaneLayout::PackedRgba,
                    DecodedVideoSurfaceNumericEncoding::Float16,
                    16,
                ),
            ),
            DecodedVideoSurfaceFormat::Rgba32Float => Some(
                packed_rgb(
                    DecodedVideoSurfacePlaneLayout::PackedRgba,
                    DecodedVideoSurfaceNumericEncoding::Float32,
                    32,
                ),
            ),
        }
    }

    /// Whether this format can be carried as a native GPU payload.
    pub fn supports_native_gpu_payload(self) -> (r: bool)
        ensures
            r == (self.spec_descriptor() matches Some(d) && d.native_gpu_payload),
    {
        match self.descriptor() {
            Some(descriptor) => descriptor.native_gpu_payload,
            None => false,
        }
    }

    /// Effective bits of a component, where the format fixes them.
    pub fn fixed_bit_depth(self) -> (r: Option<u8>)
        ensures
            r == (match self.spec_descriptor() {
                Some(descriptor) => Some(descriptor.component_bit_depth),
                None => None,
            }),
    {
        match self.descriptor() {
            Some(descriptor) => Some(descriptor.component_bit_depth),
            None => None,
        }
    }
}

/// Two planes of sixteen-bit words. Fewer bits than words have lie at their upper end.
fn high_bit(chroma: DecodedVideoSurfaceChromaSubsampling, bits: u8) -> (r:
    DecodedVideoSurfaceDescriptor)
    ensures
        Some(r) == ycbcr(
            chroma,
            DecodedVideoSurfacePlaneLayout::SemiPlanar,
            DecodedVideoSurfaceNumericEncoding::Unorm16 { most_significant_bits: bits < 16 },
            bits,
            true,
        ),
{
    DecodedVideoSurfaceDescriptor {
        color_model: DecodedVideoSurfaceColorModel::Ycbcr,
        chroma_subsampling: Some(chroma),
        plane_layout: DecodedVideoSurfacePlaneLayout::SemiPlanar,
        numeric_encoding: DecodedVideoSurfaceNumericEncoding::Unorm16 {
            most_significant_bits: bits < 16,
        },
        component_bit_depth: bits,
        has_alpha: false,
        native_gpu_payload: true,
    }
}

fn packed_422(bits: u8) -> (r: DecodedVideoSurfaceDescriptor)
    ensures
        Some(r) == ycbcr(
            DecodedVideoSurfaceChromaSubsampling::Cs422,
            DecodedVideoSurfacePlaneLayout::PackedYuv422,
            DecodedVideoSurfaceNumericEncoding::Unorm16 { most_significant_bits: true },
            bits,
            true,
        ),
{
    DecodedVideoSurfaceDescriptor {
        color_model: DecodedVideoSurfaceColorModel::Ycbcr,
        chroma_subsampling: Some(DecodedVideoSurfaceChromaSubsampling::Cs422),
        plane_layout: DecodedVideoSurfacePlaneLayout::PackedYuv422,
        numeric_encoding: DecodedVideoSurfaceNumericEncoding::Unorm16 {
            most_significant_bits: true,
        },
        component_bit_depth: bits,
        has_alpha: false,
        native_gpu_payload: true,
    }
}

fn packed_444(encoding: DecodedVideoSurfaceNumericEncoding, bits: u8) -> (r:
    DecodedVideoSurfaceDescriptor)
    ensures
        Some(r) == ycbcr(
            DecodedVideoSurfaceChromaSubsampling::Cs444,
            DecodedVideoSurfacePlaneLayout::PackedYuv444,
            encoding,
            bits,
            true,
        ),
{
    DecodedVideoSurfaceDescriptor {
        color_model: DecodedVideoSurfaceColorModel::Ycbcr,
        chroma_subsampling: Some(DecodedVideoSurfaceChromaSubsampling::Cs444),
        plane_layout: DecodedVideoSurfacePlaneLayout::PackedYuv444,
        numeric_encoding: encoding,
        component_bit_depth: bits,
        has_alpha: false,
        native_gpu_payload: true,
    }
}

fn planar(
    chroma: DecodedVideoSurfaceChromaSubsampling,
    encoding: DecodedVideoSurfaceNumericEncoding,
    bits: u8,
) -> (r: DecodedVideoSurfaceDescriptor)
    ensures
        Some(r) == ycbcr(chroma, DecodedVideoSurfacePlaneLayout::Planar, encoding, bits, false),
{
    DecodedVideoSurfaceDescriptor {
        color_model: DecodedVideoSurfaceColorModel::Ycbcr,
        chroma_subsampling: Some(chroma),
        plane_layout: DecodedVideoSurfacePlaneLayout::Planar,
        numeric_encoding: encoding,
        component_bit_depth: bits,
        has_alpha: false,
        native_gpu_payload: false,
    }
}

fn packed_rgb(
    layout: DecodedVideoSurfacePlaneLayout,
    encoding: DecodedVideoSurfaceNumericEncoding,
    bits: u8,
) -> (r: DecodedVideoSurfaceDescriptor)
    ensures
        Some(r) == rgb(layout, encoding, bits),
{
    DecodedVideoSurfaceDescriptor {
        color_model: DecodedVideoSurfaceColorModel::Rgb,
        chroma_subsampling: None,
        plane_layout: layout,
        numeric_encoding: encoding,
        component_bit_depth: bits,
        has_alpha: true,
        native_gpu_payload: true,
    }
}

/// In every modeled format the colour family decides on chroma grid and alpha, planar
/// surfaces alone cannot stay on the GPU, and the encoding holds the bits.
pub proof fn descriptors_are_consistent(format: DecodedVideoSurfaceFormat)
    ensures
        format.spec_descriptor() matches Some(d) ==> {
            &&& d.color_model is Ycbcr <==> d.chroma_subsampling is Some
            &&& d.color_model is Rgb <==> d.has_alpha
            &&& d.native_gpu_payload <==> !(d.plane_layout is Planar)
            &&& d.numeric_encoding is Unorm8 <==> d.component_bit_depth == 8
            &&& d.numeric_encoding is Unorm16 ==> 8 < d.component_bit_depth <= 16
            &&& d.numeric_encoding == (DecodedVideoSurfaceNumericEncoding::Unorm16 {
                most_significant_bits: true,
            }) ==> d.component_bit_depth < 16
        },
        format.spec_descriptor() is None <==> format is Unknown || format is Other,
{
}

/// Where chroma samples sit, as a decoder reports it.
#[derive(Debug, Clone, Copy, PartialEq, Eq, Hash, Structural, Default)]
pub enum DecodedVideoChromaLocation {
    /// Nothing reliable was reported.
    #[default]
    Unknown,
    Left,
    Center,
    TopLeft,
    Top,
    BottomLeft,
    Bottom,
}

/// Matrix from YCbCr to RGB that a decoder reports.
#[derive(Debug, Clone, Copy, PartialEq, Eq, Hash, Structural, Default)]
pub enum DecodedVideoMatrix {
    /// Nothing reliable was reported.
    #[default]
    Unknown,
    /// A matrix that needs a conversion there is none for. It is not the same as absent.
    Unsupported,
    /// BT.709, non-constant luminance.
    Bt709,
    /// BT.2020, non-constant luminance.
    Bt2020NonConstant,
    Fcc,
    /// BT.470BG, BT.601.
    Bt470Bg,
    /// SMPTE 170M, BT.601.
    Smpte170M,
    Smpte240M,
    /// The samples are RGB already.
    Rgb,
}

/// The number that a decimal digit stands for.
pub open spec fn digit_value(c: char) -> int {
    c as int - '0' as int
}

/// The names of native formats spell what they are. `P` formats have luma and interleaved
/// chroma; their first digit tells the grid of chroma (4:2:0, 4:2:2 or 4:4:4) and the other
/// two the bits. `Y` formats are packed 4:2:2 with the bits in the same place, and `Xv`
/// formats packed 4:4:4 with the bits of three components together.
pub proof fn native_names_spell_the_format(format: DecodedVideoSurfaceFormat)
    requires
        format is P010 || format is P012 || format is P016 || format is P210 || format is P212
            || format is P216 || format is P410 || format is P412 || format is P416
            || format is Y210 || format is Y212 || format is Xv30 || format is Xv36,
    ensures
        ({
            let name = format.spec_name();
            let d = format.spec_descriptor().unwrap();
            let number = 10 * digit_value(name[2]) + digit_value(name[3]);
            &&& format.spec_descriptor() is Some
            &&& name.len() == 4
            &&& d.color_model is Ycbcr && !d.has_alpha && d.native_gpu_payload
            &&& name[0] == 'P' ==> {
                &&& d.plane_layout is SemiPlanar
                &&& d.component_bit_depth == number
                &&& d.chroma_subsampling == Some(
                    if name[1] == '0' {
                        DecodedVideoSurfaceChromaSubsampling::Cs420
                    } else if name[1] == '2' {
                        DecodedVideoSurfaceChromaSubsampling::Cs422
                    } else {
                        DecodedVideoSurfaceChromaSubsampling::Cs444
                    },
                )
                &&& d.numeric_encoding == (DecodedVideoSurfaceNumericEncoding::Unorm16 {
                    most_significant_bits: number < 16,
                })
            }
            &&& name[0] == 'Y' ==> {
                &&& d.plane_layout is PackedYuv422
                &&& d.chroma_subsampling == Some(DecodedVideoSurfaceChromaSubsampling::Cs422)
                &&& d.component_bit_depth == number
                &&& d.numeric_encoding == (DecodedVideoSurfaceNumericEncoding::Unorm16 {
                    most_significant_bits: true,
                })
            }
            &&& name[0] == 'X' ==> {
                &&& d.plane_layout is PackedYuv444
                &&& d.chroma_subsampling == Some(DecodedVideoSurfaceChromaSubsampling::Cs444)
                &&& 3 * d.component_bit_depth == number
            }
        }),
{
    reveal_strlit("P010");
    reveal_strlit("P012");
    reveal_strlit("P016");
    reveal_strlit("P210");
    reveal_strlit("P212");
    reveal_strlit("P216");
    reveal_strlit("P410");
    reveal_strlit("P412");
    reveal_strlit("P416");
    reveal_strlit("Y210");
    reveal_strlit("Y212");
    reveal_strlit("Xv30");
    reveal_strlit("Xv36");
}

/// Planar formats have three planes in the grid that their name tells, eight bits unless it
/// says ten, and the codes at the low end of their words; RGB formats have the order of
/// components and the numbers that theirs tells.
pub proof fn plain_names_spell_the_format()
    ensures
        DecodedVideoSurfaceFormat::Nv12.spec_descriptor() matches Some(d)
            && d.plane_layout is SemiPlanar && d.chroma_subsampling == Some(
            DecodedVideoSurfaceChromaSubsampling::Cs420,
        ) && d.component_bit_depth == 8,
        DecodedVideoSurfaceFormat::Yuv420p.spec_descriptor() matches Some(d)
            && d.plane_layout is Planar && d.chroma_subsampling == Some(
            DecodedVideoSurfaceChromaSubsampling::Cs420,
        ) && d.component_bit_depth == 8,
        DecodedVideoSurfaceFormat::Yuv420p10le.spec_descriptor() matches Some(d)
            && d.plane_layout is Planar && d.chroma_subsampling == Some(
            DecodedVideoSurfaceChromaSubsampling::Cs420,
        ) && d.component_bit_depth == 10 && d.numeric_encoding == (
        DecodedVideoSurfaceNumericEncoding::Unorm16 { most_significant_bits: false }),
        DecodedVideoSurfaceFormat::Yuv422p.spec_descriptor() matches Some(d)
            && d.plane_layout is Planar && d.chroma_subsampling == Some(
            DecodedVideoSurfaceChromaSubsampling::Cs422,
        ) && d.component_bit_depth == 8,
        DecodedVideoSurfaceFormat::Yuv422p10le.spec_descriptor() matches Some(d)
            && d.plane_layout is Planar && d.chroma_subsampling == Some(
            DecodedVideoSurfaceChromaSubsampling::Cs422,
        ) && d.component_bit_depth == 10 && d.numeric_encoding == (
        DecodedVideoSurfaceNumericEncoding::Unorm16 { most_significant_bits: false }),
        DecodedVideoSurfaceFormat::Rgba8.spec_descriptor() matches Some(d)
            && d.plane_layout is PackedRgba && d.numeric_encoding is Unorm8,
        DecodedVideoSurfaceFormat::Bgra8.spec_descriptor() matches Some(d)
            && d.plane_layout is PackedBgra && d.numeric_encoding is Unorm8,
        DecodedVideoSurfaceFormat::Rgba16Float.spec_descriptor() matches Some(d)
            && d.plane_layout is PackedRgba && d.numeric_encoding is Float16
            && d.component_bit_depth == 16,
        DecodedVideoSurfaceFormat::Rgba32Float.spec_descriptor() matches Some(d)
            && d.plane_layout is PackedRgba && d.numeric_encoding is Float32
            && d.component_bit_depth == 32,
{
}

/// The name of a residency says which it is.
pub proof fn residencies_are_named_after_themselves(residency: DecodedFrameResidency)
    ensures
        residency is CpuRgba ==> residency.spec_name() == "CpuRgba"@,
        residency is CpuFloat ==> residency.spec_name() == "CpuFloat"@,
        residency is CpuYuv ==> residency.spec_name() == "CpuYuv"@,
        residency is GpuTexture ==> residency.spec_name() == "GpuTexture"@,
{
}

} // verus!