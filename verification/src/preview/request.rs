//! Requests for preview frames, and the colour contract that they carry.

use crate::decoder::backend::HwAccelDeviceSelector;
use crate::decoder::range::{
    contract_of, DecodedVideoRange, DecodedVideoRangeContract, MediaRangeInterpretation,
};
use crate::decoder::surface::DecodedVideoMatrix;
use crate::info::color::ColorSpace;
use crate::path::MediaPath;
use crate::preview::vocabulary::{
    PreviewDecodeAccessMode, PreviewDecodeAdaptiveHints, PreviewHardwareDecodeRequest,
    PreviewPlaybackDirection, PreviewScrubAdaptiveClass,
};
use vstd::prelude::*;

verus! {

/// What decoded RGB samples are.
#[derive(Debug, Clone, Copy, PartialEq, Eq, Structural)]
pub enum PreviewSourceSampleIdentity {
    /// Pictures in a colour space.
    ColorManaged(ColorSpace),
    /// Numbers that are no colours.
    DataTexture,
}

/// Colour and range of a source.
#[derive(Debug, Clone, Copy, PartialEq, Eq, Structural)]
pub struct PreviewSourceColorContract {
    pub identity: PreviewSourceSampleIdentity,
    pub range: DecodedVideoRangeContract,
    /// Matrix of frames that carry none.
    pub yuv_matrix_fallback: Option<DecodedVideoMatrix>,
}

impl PreviewSourceColorContract {
    /// A contract for pictures.
    pub fn new(color_space: ColorSpace, range: DecodedVideoRangeContract) -> (r:
        PreviewSourceColorContract)
        ensures
            r == (PreviewSourceColorContract {
                identity: PreviewSourceSampleIdentity::ColorManaged(color_space),
                range,
                yuv_matrix_fallback: None,
            }),
    {
        PreviewSourceColorContract {
            identity: PreviewSourceSampleIdentity::ColorManaged(color_space),
            range,
            yuv_matrix_fallback: None,
        }
    }

    /// A contract for numbers.
    pub fn data_texture(range: DecodedVideoRangeContract) -> (r: PreviewSourceColorContract)
        ensures
            r == (PreviewSourceColorContract {
                identity: PreviewSourceSampleIdentity::DataTexture,
                range,
                yuv_matrix_fallback: None,
            }),
    {
        PreviewSourceColorContract {
            identity: PreviewSourceSampleIdentity::DataTexture,
            range,
            yuv_matrix_fallback: None,
        }
    }

    /// The colour space of pictures.
    pub fn color_space(self) -> (r: Option<ColorSpace>)
        ensures
            r == (match self.identity {
                PreviewSourceSampleIdentity::ColorManaged(space) => Some(space),
                PreviewSourceSampleIdentity::DataTexture => None,
            }),
    {
        match self.identity {
            PreviewSourceSampleIdentity::ColorManaged(space) => Some(space),
            PreviewSourceSampleIdentity::DataTexture => None,
        }
    }

    /// Whether the samples are numbers.
    pub fn is_data_texture(self) -> (r: bool)
        ensures
            r == (self.identity is DataTexture),
    {
        match self.identity {
            PreviewSourceSampleIdentity::ColorManaged(_) => false,
            PreviewSourceSampleIdentity::DataTexture => true,
        }
    }

    /// Whether the samples are pictures in a scene-linear space. `linear_spaces` are the
    /// spaces that count as such.
    pub fn is_scene_linear(self, linear_spaces: &[ColorSpace]) -> (r: bool)
        ensures
            r == (self.identity matches PreviewSourceSampleIdentity::ColorManaged(space)
                && linear_spaces@.contains(space)),
    {
        match self.identity {
            PreviewSourceSampleIdentity::ColorManaged(space) => {
                let len: usize = linear_spaces.len();
                let mut i: usize = 0;
                while i < len
                    invariant
                        i <= len == linear_spaces@.len(),
                        forall|j: int| 0 <= j < i ==> linear_spaces@[j] != space,
                        self.identity == PreviewSourceSampleIdentity::ColorManaged(space),
                    decreases len - i,
                {
                    if linear_spaces[i] == space {
                        assert(linear_spaces@[i as int] == space);
                        return true;
                    }
                    i += 1;
                }
                false
            },
            PreviewSourceSampleIdentity::DataTexture => false,
        }
    }

    /// This contract with a matrix for frames that carry none. Numbers need no matrix.
    pub fn with_yuv_matrix_fallback(self, matrix: DecodedVideoMatrix) -> (r:
        PreviewSourceColorContract)
        ensures
            r == (if self.identity is DataTexture {
                self
            } else {
                PreviewSourceColorContract { yuv_matrix_fallback: Some(matrix), ..self }
            }),
    {
        if self.is_data_texture() {
            self
        } else {
            PreviewSourceColorContract { yuv_matrix_fallback: Some(matrix), ..self }
        }
    }

    /// A contract that follows metadata, and else what was probed.
    pub fn automatic(color_space: ColorSpace, probed_range: DecodedVideoRange) -> (r:
        PreviewSourceColorContract)
        ensures
            r == (PreviewSourceColorContract {
                identity: PreviewSourceSampleIdentity::ColorManaged(color_space),
                range: DecodedVideoRangeContract::Automatic { probed_range },
                yuv_matrix_fallback: None,
            }),
    {
        PreviewSourceColorContract::new(
            color_space,
            DecodedVideoRangeContract::Automatic { probed_range },
        )
    }

    /// A contract from an asset's interpretation and what was probed.
    pub fn from_interpretation(
        color_space: ColorSpace,
        interpretation: MediaRangeInterpretation,
        probed_range: DecodedVideoRange,
    ) -> (r: PreviewSourceColorContract)
        ensures
            r == (PreviewSourceColorContract {
                identity: PreviewSourceSampleIdentity::ColorManaged(color_space),
                range: contract_of(interpretation, probed_range),
                yuv_matrix_fallback: None,
            }),
    {
        PreviewSourceColorContract::new(
            color_space,
            DecodedVideoRangeContract::from_interpretation(interpretation, probed_range),
        )
    }
}

/// A request for one preview frame. The target time, the representation, the file
/// fingerprint and the camera RAW development are carried as they are.
#[derive(Debug, Clone, Copy)]
pub struct PreviewDecodeRequest<'a, T, R, F, C> {
    pub path: &'a MediaPath,
    /// The stream, or the best one.
    pub video_stream_index: Option<u32>,
    /// The time in the source.
    pub source_sample: T,
    pub max_width: Option<u32>,
    pub max_height: Option<u32>,
    /// The representation that the frame must have.
    pub representation: R,
    pub access_mode: PreviewDecodeAccessMode,
    /// The file revision that the request was made for.
    pub fingerprint: Option<F>,
    pub adaptive_hints: PreviewDecodeAdaptiveHints,
    pub hardware_decode_request: PreviewHardwareDecodeRequest,
    pub hardware_decode_device_selector: Option<HwAccelDeviceSelector>,
    pub source_color: PreviewSourceColorContract,
    pub camera_raw: Option<C>,
}

/// The physical identity of a frame to decode.
#[derive(Debug, Clone, Copy)]
pub struct PreviewDecodeKeyParts<'a, T, R, F, C> {
    pub path: &'a MediaPath,
    pub video_stream_index: u32,
    pub source_sample: T,
    /// The largest extent of the representation itself.
    pub max_width: Option<u32>,
    pub max_height: Option<u32>,
    pub representation: R,
    pub fingerprint: F,
    pub source_color: PreviewSourceColorContract,
    pub camera_raw: Option<C>,
}

/// Hints of a request that has none.
pub open spec fn no_hints() -> PreviewDecodeAdaptiveHints {
    PreviewDecodeAdaptiveHints {
        scrub_class: PreviewScrubAdaptiveClass::Normal,
        playback_direction: PreviewPlaybackDirection::Forward,
    }
}

impl<'a, T, R, F, C> PreviewDecodeRequest<'a, T, R, F, C> {
    /// The request for the frame of a physical identity.
    pub fn from_key(
        key: PreviewDecodeKeyParts<'a, T, R, F, C>,
        access_mode: PreviewDecodeAccessMode,
    ) -> (r: PreviewDecodeRequest<'a, T, R, F, C>)
        ensures
            r == (PreviewDecodeRequest {
                path: key.path,
                video_stream_index: Some(key.video_stream_index),
                source_sample: key.source_sample,
                max_width: key.max_width,
                max_height: key.max_height,
                representation: key.representation,
                access_mode,
                fingerprint: Some(key.fingerprint),
                adaptive_hints: no_hints(),
                hardware_decode_request: PreviewHardwareDecodeRequest::Auto,
                hardware_decode_device_selector: None,
                source_color: key.source_color,
                camera_raw: key.camera_raw,
            }),
    {
        PreviewDecodeRequest {
            path: key.path,
            video_stream_index: Some(key.video_stream_index),
            source_sample: key.source_sample,
            max_width: key.max_width,
            max_height: key.max_height,
            representation: key.representation,
            access_mode,
            fingerprint: Some(key.fingerprint),
            adaptive_hints: PreviewDecodeAdaptiveHints::default(),
            hardware_decode_request: PreviewHardwareDecodeRequest::Auto,
            hardware_decode_device_selector: None,
            source_color: key.source_color,
            camera_raw: key.camera_raw,
        }
    }

    /// A request with nothing but what every request has. `native_cpu` is the
    /// representation in main memory as the decoder has it.
    pub fn new(
        path: &'a MediaPath,
        source_sample: T,
        access_mode: PreviewDecodeAccessMode,
        source_color: PreviewSourceColorContract,
        native_cpu: R,
    ) -> (r: PreviewDecodeRequest<'a, T, R, F, C>)
        ensures
            r == (PreviewDecodeRequest {
                path,
                video_stream_index: None,
                source_sample,
                max_width: None,
                max_height: None,
                representation: native_cpu,
                access_mode,
                fingerprint: None::<F>,
                adaptive_hints: no_hints(),
                hardware_decode_request: PreviewHardwareDecodeRequest::Auto,
                hardware_decode_device_selector: None,
                source_color,
                camera_raw: None::<C>,
            }),
    {
        PreviewDecodeRequest {
            path,
            video_stream_index: None,
            source_sample,
            max_width: None,
            max_height: None,
            representation: native_cpu,
            access_mode,
            fingerprint: None,
            adaptive_hints: PreviewDecodeAdaptiveHints::default(),
            hardware_decode_request: PreviewHardwareDecodeRequest::Auto,
            hardware_decode_device_selector: None,
            source_color,
            camera_raw: None,
        }
    }

    /// This request for an exact stream.
    pub fn with_video_stream_index(self, video_stream_index: u32) -> (r: Self)
        ensures
            r == (PreviewDecodeRequest { video_stream_index: Some(video_stream_index), ..self }),
    {
        PreviewDecodeRequest { video_stream_index: Some(video_stream_index), ..self }
    }

    /// This request with the largest extent that the frame may have.
    pub fn with_max_size(self, max_width: Option<u32>, max_height: Option<u32>) -> (r: Self)
        ensures
            r == (PreviewDecodeRequest { max_width, max_height, ..self }),
    {
        PreviewDecodeRequest { max_width, max_height, ..self }
    }

    /// This request for a file revision.
    pub fn with_fingerprint(self, fingerprint: F) -> (r: Self)
        ensures
            r == (PreviewDecodeRequest { fingerprint: Some(fingerprint), ..self }),
    {
        PreviewDecodeRequest { fingerprint: Some(fingerprint), ..self }
    }

    /// This request with a camera RAW development.
    pub fn with_camera_raw(self, camera_raw: C) -> (r: Self)
        ensures
            r == (PreviewDecodeRequest { camera_raw: Some(camera_raw), ..self }),
    {
        PreviewDecodeRequest { camera_raw: Some(camera_raw), ..self }
    }

    /// This request with tuning.
    pub fn with_adaptive_hints(self, adaptive_hints: PreviewDecodeAdaptiveHints) -> (r: Self)
        ensures
            r == (PreviewDecodeRequest { adaptive_hints, ..self }),
    {
        PreviewDecodeRequest { adaptive_hints, ..self }
    }

    /// This request with a preference for hardware decode.
    pub fn with_hardware_decode_request(
        self,
        hardware_decode_request: PreviewHardwareDecodeRequest,
    ) -> (r: Self)
        ensures
            r == (PreviewDecodeRequest { hardware_decode_request, ..self }),
    {
        PreviewDecodeRequest { hardware_decode_request, ..self }
    }

    /// This request with the device that the renderer selected.
    pub fn with_hardware_decode_device_selector(
        self,
        selector: Option<HwAccelDeviceSelector>,
    ) -> (r: Self)
        ensures
            r == (PreviewDecodeRequest { hardware_decode_device_selector: selector, ..self }),
    {
        PreviewDecodeRequest { hardware_decode_device_selector: selector, ..self }
    }
}

/// Why the file of a request cannot be decoded.
#[derive(Debug, Clone, Copy, PartialEq, Eq, Structural)]
pub enum SourceRevisionFault {
    /// The request does not say enough of the file revision.
    RequestIncomplete,
    /// The file system does not say enough of the file revision.
    FileIncomplete,
    /// The file is another one by now.
    Changed,
}

/// Text of a fault of the file revision; a changed file has none but the two revisions.
pub open spec fn revision_reason(fault: SourceRevisionFault) -> Option<Seq<char>> {
    match fault {
        SourceRevisionFault::RequestIncomplete => Some(
            "request did not carry object identity and filesystem change generation"@,
        ),
        SourceRevisionFault::FileIncomplete => Some(
            "filesystem did not expose a stable object identity and change generation"@,
        ),
        SourceRevisionFault::Changed => None,
    }
}

impl SourceRevisionFault {
    /// Text of this fault.
    pub fn reason(self) -> (r: Option<&'static str>)
        ensures
            match (r, revision_reason(self)) {
                (Some(text), Some(expected)) => text@ == expected,
                (None, None) => true,
                _ => false,
            },
    {
        match self {
            SourceRevisionFault::RequestIncomplete => Some(
                "request did not carry object identity and filesystem change generation",
            ),
            SourceRevisionFault::FileIncomplete => Some(
                "filesystem did not expose a stable object identity and change generation",
            ),
            SourceRevisionFault::Changed => None,
        }
    }
}

/// A revision that a request was made for.
#[derive(Debug, Clone, Copy, PartialEq, Eq, Structural)]
pub struct ExpectedRevision {
    /// It identifies the file beyond doubt.
    pub complete: bool,
    /// It is that of the file as it is now.
    pub unchanged: bool,
}

/// The fault of an expected revision.
pub open spec fn expected_fault(expected: ExpectedRevision) -> Option<SourceRevisionFault> {
    if !expected.complete {
        Some(SourceRevisionFault::RequestIncomplete)
    } else if !expected.unchanged {
        Some(SourceRevisionFault::Changed)
    } else {
        None
    }
}

/// Checks that a file is the one that a request was made for.
pub fn verify_preview_source_revision(expected: ExpectedRevision) -> (r: Result<
    (),
    SourceRevisionFault,
>)
    ensures
        match (expected_fault(expected), r) {
            (Some(fault), Err(found)) => fault == found,
            (None, Ok(())) => true,
            _ => false,
        },
{
    if !expected.complete {
        Err(SourceRevisionFault::RequestIncomplete)
    } else if !expected.unchanged {
        Err(SourceRevisionFault::Changed)
    } else {
        Ok(())
    }
}

/// Whose revision a decode goes by.
#[derive(Debug, Clone, Copy, PartialEq, Eq, Structural)]
pub enum RevisionAuthority {
    Request,
    File,
}

/// The revision that a decode goes by: that of the request, which has to hold, or else
/// that of the file, which has to be complete.
pub fn resolve_preview_execution_fingerprint(
    requested: Option<ExpectedRevision>,
    observed_complete: bool,
) -> (r: Result<RevisionAuthority, SourceRevisionFault>)
    ensures
        match requested {
            Some(expected) => match expected_fault(expected) {
                Some(fault) => r == Err::<RevisionAuthority, _>(fault),
                None => r == Ok::<_, SourceRevisionFault>(RevisionAuthority::Request),
            },
            None => if observed_complete {
                r == Ok::<_, SourceRevisionFault>(RevisionAuthority::File)
            } else {
                r == Err::<RevisionAuthority, _>(SourceRevisionFault::FileIncomplete)
            },
        },
{
    match requested {
        Some(expected) => match verify_preview_source_revision(expected) {
            Ok(()) => Ok(RevisionAuthority::Request),
            Err(fault) => Err(fault),
        },
        None => {
            if observed_complete {
                Ok(RevisionAuthority::File)
            } else {
                Err(SourceRevisionFault::FileIncomplete)
            }
        },
    }
}

/// What decoding a preview frame brings.
#[derive(Debug)]
pub enum PreviewDecodeOutcome<B, L, Y, G, N> {
    /// A frame of bytes.
    Frame(B),
    /// A frame of linear light.
    FloatFrame(L),
    /// Planes as they were decoded.
    CpuYuvFrame(Y),
    /// A frame that stays on the device.
    NativeGpuFrame(G),
    /// The request was obsolete before there was a frame.
    Canceled(N),
}

/// A file may be decoded for a request only where the request knew it fully, and it has not
/// changed since. What the request did not know is told before a change.
pub proof fn changed_files_are_refused(expected: ExpectedRevision)
    ensures
        expected_fault(expected) is None <==> expected.complete && expected.unchanged,
        !expected.complete ==> expected_fault(expected) == Some(
            SourceRevisionFault::RequestIncomplete,
        ),
        expected.complete && !expected.unchanged ==> expected_fault(expected) == Some(
            SourceRevisionFault::Changed,
        ),
{
}

} // verus!
