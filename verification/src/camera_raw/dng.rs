//! The closed DNG/CinemaDNG metadata contract of a TIFF source.

use super::tiff::{
    directories, entry_bytes, entry_data, entry_maps, entry_unsigned, i32_of, ifd_area,
    parse_ifd_graph, u16_of, u32_of, unsigned_values, area, Endian, TiffEntry, TiffError, TiffIfd,
    TAG_IMAGE_HEIGHT, TAG_IMAGE_WIDTH,
};
use crate::text::{
    contains_text, decimal, list_text, lower, occurs_at, push_decimal, push_list,
    same_text_ignoring_case, trim, trim_string, utf8_lossy, utf8_lossy_text,
};
use vstd::prelude::*;
use vstd::slice::slice_subrange;
use vstd::string::*;

verus! {

broadcast use vstd::std_specs::hash::group_hash_axioms;

/// Largest DNG source that is read, in bytes.
pub const MAX_DNG_BYTES: u64 = 1_073_741_824;

/// Entry with the bits of one sample.
pub const TAG_BITS_PER_SAMPLE: u16 = 258;

/// Entry with the compression scheme.
pub const TAG_COMPRESSION: u16 = 259;

/// Entry with the camera maker.
pub const TAG_MAKE: u16 = 271;

/// Entry with the camera model.
pub const TAG_MODEL: u16 = 272;

/// Entry with the extent of the repeating colour filter pattern.
pub const TAG_CFA_REPEAT_PATTERN_DIM: u16 = 33_421;

/// Entry with the repeating colour filter pattern.
pub const TAG_CFA_PATTERN: u16 = 33_422;

/// Entry that marks a TIFF source as DNG.
pub const TAG_DNG_VERSION: u16 = 50_706;

/// Entry with the neutral camera colour.
pub const TAG_AS_SHOT_NEUTRAL: u16 = 50_728;

/// Entry with the first colour matrix.
pub const TAG_COLOR_MATRIX_1: u16 = 50_721;

/// Entry with the second colour matrix.
pub const TAG_COLOR_MATRIX_2: u16 = 50_722;

/// Entry that marks a CinemaDNG sequence.
pub const TAG_CINEMADNG_FRAME_RATE: u16 = 51_044;

/// Which camera RAW contract a source meets.
#[derive(Debug, Clone, Copy, PartialEq, Eq, Structural)]
pub enum CameraRawAdapter {
    /// A single DNG picture.
    Dng,
    /// A picture of a CinemaDNG sequence.
    CinemaDng,
}

/// Colours of the repeating two by two filter, row by row.
#[derive(Debug, Clone, Copy, PartialEq, Eq, Structural)]
pub enum CameraRawCfaPattern {
    Rggb,
    Bggr,
    Gbrg,
    Grbg,
}

/// Camera RAW facts of a source.
#[derive(Debug, Clone, PartialEq, Eq)]
pub struct CameraRawMetadata {
    pub adapter: CameraRawAdapter,
    pub cfa_pattern: CameraRawCfaPattern,
    pub width: u32,
    pub height: u32,
    pub bit_depth: u8,
    pub compression: u16,
    pub camera_make: Option<String>,
    pub camera_model: Option<String>,
    pub has_color_matrix: bool,
    pub has_as_shot_neutral: bool,
}

/// A rational number with a denominator other than zero.
#[derive(Debug, Clone, Copy, PartialEq, Eq, Structural)]
pub struct DngRational {
    pub numerator: i64,
    pub denominator: i64,
}

/// A DNG source that met the contract.
#[derive(Debug, Clone)]
pub struct ParsedDng {
    pub metadata: CameraRawMetadata,
    /// Neutral camera colour, one value per channel.
    pub as_shot_neutral: Option<[DngRational; 3]>,
    /// Colour matrix, row by row.
    pub color_matrix: Option<[DngRational; 9]>,
}

/// Why a DNG source was refused.
#[derive(Debug, Clone)]
pub enum DngError {
    /// The file is larger than `MAX_DNG_BYTES`.
    TooLarge,
    /// The TIFF container was refused.
    Tiff(TiffError),
    /// No directory holds a colour filter pattern.
    NoCfaDirectory,
    /// The colour filter pattern does not repeat every two pixels.
    UnsupportedCfaDimensions,
    /// The colour filter pattern is none of the known ones.
    UnsupportedCfaPattern(Vec<u32>),
    /// The image width is missing.
    MissingWidth,
    /// The image height is missing.
    MissingHeight,
    /// The image has no pixels.
    EmptyExtent,
    /// The sample depth is missing or out of range.
    InvalidBitDepth,
}

/// Mathematical counterpart of [`DngError`].
pub enum DngFault {
    TooLarge,
    Tiff(TiffError),
    NoCfaDirectory,
    UnsupportedCfaDimensions,
    UnsupportedCfaPattern(Seq<u32>),
    MissingWidth,
    MissingHeight,
    EmptyExtent,
    InvalidBitDepth,
}

impl View for DngError {
    type V = DngFault;

    open spec fn view(&self) -> DngFault {
        match self {
            DngError::TooLarge => DngFault::TooLarge,
            DngError::Tiff(error) => DngFault::Tiff(*error),
            DngError::NoCfaDirectory => DngFault::NoCfaDirectory,
            DngError::UnsupportedCfaDimensions => DngFault::UnsupportedCfaDimensions,
            DngError::UnsupportedCfaPattern(values) => DngFault::UnsupportedCfaPattern(values@),
            DngError::MissingWidth => DngFault::MissingWidth,
            DngError::MissingHeight => DngFault::MissingHeight,
            DngError::EmptyExtent => DngFault::EmptyExtent,
            DngError::InvalidBitDepth => DngFault::InvalidBitDepth,
        }
    }
}

/// Mathematical counterpart of [`ParsedDng`].
#[verifier::ext_equal]
pub struct DngFacts {
    pub adapter: CameraRawAdapter,
    pub cfa_pattern: CameraRawCfaPattern,
    pub width: u32,
    pub height: u32,
    pub bit_depth: u8,
    pub compression: u16,
    pub make: Option<Seq<char>>,
    pub model: Option<Seq<char>>,
    pub neutral: Option<Seq<DngRational>>,
    pub matrix: Option<Seq<DngRational>>,
    pub has_neutral: bool,
    pub has_matrix: bool,
}

/// The text of an optional string.
pub open spec fn text_view(text: Option<String>) -> Option<Seq<char>> {
    match text {
        Some(text) => Some(text@),
        None => None,
    }
}

impl View for ParsedDng {
    type V = DngFacts;

    open spec fn view(&self) -> DngFacts {
        DngFacts {
            adapter: self.metadata.adapter,
            cfa_pattern: self.metadata.cfa_pattern,
            width: self.metadata.width,
            height: self.metadata.height,
            bit_depth: self.metadata.bit_depth,
            compression: self.metadata.compression,
            make: text_view(self.metadata.camera_make),
            model: text_view(self.metadata.camera_model),
            neutral: match self.as_shot_neutral {
                Some(values) => Some(values@),
                None => None,
            },
            matrix: match self.color_matrix {
                Some(values) => Some(values@),
                None => None,
            },
            has_neutral: self.metadata.has_as_shot_neutral,
            has_matrix: self.metadata.has_color_matrix,
        }
    }
}

impl ParsedDng {
    /// The presence flags of the metadata tell the truth, and there is a picture.
    pub open spec fn wf(&self) -> bool {
        &&& self.metadata.has_as_shot_neutral == (self.as_shot_neutral is Some)
        &&& self.metadata.has_color_matrix == (self.color_matrix is Some)
        &&& self.metadata.width > 0
        &&& self.metadata.height > 0
        &&& self.as_shot_neutral matches Some(values) ==> forall|i: int|
            0 <= i < 3 ==> (#[trigger] values@[i]).denominator != 0
        &&& self.color_matrix matches Some(values) ==> forall|i: int|
            0 <= i < 9 ==> (#[trigger] values@[i]).denominator != 0
    }
}

/// Message for a refused TIFF container.
pub open spec fn tiff_reason(error: TiffError) -> Seq<char> {
    match error {
        TiffError::TooManyValues { count } => "TIFF entry contains "@ + decimal(count as nat)
            + " values; maximum is 4096"@,
        TiffError::UnsupportedFieldType { field_type } => "unsupported TIFF field type "@ + decimal(
            field_type as nat,
        ),
        TiffError::EntryOutsideFile => "TIFF entry points outside the source file"@,
        TiffError::NotUnsigned { field_type } => "TIFF type "@ + decimal(field_type as nat)
            + " is not an unsigned integer"@,
        TiffError::NotRational { field_type } => "TIFF type "@ + decimal(field_type as nat)
            + " is not rational"@,
        TiffError::ZeroDenominator => "DNG rational has a zero denominator"@,
        TiffError::CountOutsideFile => "TIFF IFD count is outside the file"@,
        TiffError::TooManyEntries { declared } => "TIFF IFD contains "@ + decimal(declared as nat)
            + " entries; maximum is 4096"@,
        TiffError::EntriesOutsideFile => "TIFF IFD entries are outside the file"@,
        TiffError::NextOutsideFile => "TIFF next-IFD offset is outside the file"@,
        TiffError::TooManyDirectories =>
            "TIFF contains more than 32 reachable image directories"@,
    }
}

/// Message for a refused DNG source.
pub open spec fn dng_reason(fault: DngFault) -> Seq<char> {
    match fault {
        DngFault::TooLarge => "DNG source exceeds the 1073741824 byte safety bound"@,
        DngFault::Tiff(error) => tiff_reason(error),
        DngFault::NoCfaDirectory => "DNG source has no supported 2x2 CFA image directory"@,
        DngFault::UnsupportedCfaDimensions => "only 2x2 DNG CFA patterns are supported"@,
        DngFault::UnsupportedCfaPattern(values) => "unsupported DNG CFA pattern "@ + list_text(
            values,
        ),
        DngFault::MissingWidth => "DNG ImageWidth is missing"@,
        DngFault::MissingHeight => "DNG ImageLength is missing"@,
        DngFault::EmptyExtent => "DNG image extent is empty"@,
        DngFault::InvalidBitDepth => "DNG BitsPerSample is missing or invalid"@,
    }
}

fn sentence(head: &str, value: u64, tail: &str) -> (out: String)
    ensures
        out@ == head@ + decimal(value as nat) + tail@,
{
    let mut out = head.to_owned();
    push_decimal(&mut out, value);
    out.append(tail);
    out
}

impl TiffError {
    /// What was wrong with the container.
    pub fn reason(&self) -> (out: String)
        ensures
            out@ == tiff_reason(*self),
    {
        match self {
            TiffError::TooManyValues { count } => sentence(
                "TIFF entry contains ",
                *count as u64,
                " values; maximum is 4096",
            ),
            TiffError::UnsupportedFieldType { field_type } => {
                let mut out = "unsupported TIFF field type ".to_owned();
                push_decimal(&mut out, *field_type as u64);
                out
            },
            TiffError::EntryOutsideFile => "TIFF entry points outside the source file".to_owned(),
            TiffError::NotUnsigned { field_type } => sentence(
                "TIFF type ",
                *field_type as u64,
                " is not an unsigned integer",
            ),
            TiffError::NotRational { field_type } => sentence(
                "TIFF type ",
                *field_type as u64,
                " is not rational",
            ),
            TiffError::ZeroDenominator => "DNG rational has a zero denominator".to_owned(),
            TiffError::CountOutsideFile => "TIFF IFD count is outside the file".to_owned(),
            TiffError::TooManyEntries { declared } => sentence(
                "TIFF IFD contains ",
                *declared as u64,
                " entries; maximum is 4096",
            ),
            TiffError::EntriesOutsideFile => "TIFF IFD entries are outside the file".to_owned(),
            TiffError::NextOutsideFile => "TIFF next-IFD offset is outside the file".to_owned(),
            TiffError::TooManyDirectories =>
                "TIFF contains more than 32 reachable image directories".to_owned(),
        }
    }
}

impl DngError {
    /// What was wrong with the source.
    pub fn reason(&self) -> (out: String)
        ensures
            out@ == dng_reason(self@),
    {
        match self {
            DngError::TooLarge => "DNG source exceeds the 1073741824 byte safety bound".to_owned(),
            DngError::Tiff(error) => error.reason(),
            DngError::NoCfaDirectory =>
                "DNG source has no supported 2x2 CFA image directory".to_owned(),
            DngError::UnsupportedCfaDimensions =>
                "only 2x2 DNG CFA patterns are supported".to_owned(),
            DngError::UnsupportedCfaPattern(values) => {
                let mut out = "unsupported DNG CFA pattern ".to_owned();
                push_list(&mut out, values);
                out
            },
            DngError::MissingWidth => "DNG ImageWidth is missing".to_owned(),
            DngError::MissingHeight => "DNG ImageLength is missing".to_owned(),
            DngError::EmptyExtent => "DNG image extent is empty".to_owned(),
            DngError::InvalidBitDepth => "DNG BitsPerSample is missing or invalid".to_owned(),
        }
    }
}

/// Whether a file name extension announces a DNG source, in any ASCII case.
pub fn has_dng_extension(extension: Option<&str>) -> (r: bool)
    ensures
        r == (extension matches Some(text) && lower(text@) == lower("dng"@)),
{
    match extension {
        Some(text) => same_text_ignoring_case(text, "dng"),
        None => false,
    }
}

/// Refuses sources that are too large to be read.
pub fn check_dng_size(len: u64) -> (r: Result<(), DngError>)
    ensures
        match r {
            Ok(_) => len <= MAX_DNG_BYTES,
            Err(error) => len > MAX_DNG_BYTES && error@ == DngFault::TooLarge,
        },
        r is Ok <==> len <= 1024 * 1024 * 1024,
{
    if len > MAX_DNG_BYTES {
        Err(DngError::TooLarge)
    } else {
        Ok(())
    }
}

/// The rational at index `i` of a run of eight byte pairs.
pub open spec fn rational_at(endian: Endian, data: Seq<u8>, signed: bool, i: int) -> DngRational {
    let numerator = data.subrange(8 * i, 8 * i + 4);
    let denominator = data.subrange(8 * i + 4, 8 * i + 8);
    if signed {
        DngRational {
            numerator: i32_of(endian, numerator) as i64,
            denominator: i32_of(endian, denominator) as i64,
        }
    } else {
        DngRational {
            numerator: u32_of(endian, numerator) as i64,
            denominator: u32_of(endian, denominator) as i64,
        }
    }
}

/// The values of an entry as rationals.
pub open spec fn entry_rationals(bytes: Seq<u8>, endian: Endian, entry: TiffEntry) -> Result<
    Seq<DngRational>,
    TiffError,
> {
    match entry_data(bytes, endian, entry) {
        Err(error) => Err(error),
        Ok(data) => if entry.field_type != 5 && entry.field_type != 10 {
            Err(TiffError::NotRational { field_type: entry.field_type })
        } else {
            let values = Seq::new(
                data.len() / 8,
                |i: int| rational_at(endian, data, entry.field_type == 10, i),
            );
            if exists|i: int| 0 <= i < values.len() && (#[trigger] values[i]).denominator == 0 {
                Err(TiffError::ZeroDenominator)
            } else {
                Ok(values)
            }
        },
    }
}

/// The values of an entry as rationals.
pub fn rational_values(bytes: &[u8], endian: Endian, entry: &TiffEntry) -> (r: Result<
    Vec<DngRational>,
    TiffError,
>)
    ensures
        match (r, entry_rationals(bytes@, endian, *entry)) {
            (Ok(values), Ok(expected)) => values@ == expected,
            (Err(error), Err(expected)) => error == expected,
            _ => false,
        },
{
    let data = match entry_bytes(bytes, endian, entry) {
        Ok(data) => data,
        Err(error) => return Err(error),
    };
    let field_type: u16 = entry.field_type;
    if field_type != 5 && field_type != 10 {
        return Err(TiffError::NotRational { field_type });
    }
    let signed = field_type == 10;
    let count: usize = data.len() / 8;
    let ghost all = Seq::new(count as nat, |j: int| rational_at(endian, data@, signed, j));
    let mut values: Vec<DngRational> = Vec::new();
    let mut i: usize = 0;
    while i < count
        invariant
            i <= count,
            count == data.len() / 8,
            entry_data(bytes@, endian, *entry) == Ok::<Seq<u8>, TiffError>(data@),
            entry.field_type == 5 || entry.field_type == 10,
            signed == (entry.field_type == 10),
            all == Seq::new(count as nat, |j: int| rational_at(endian, data@, signed, j)),
            values@ == all.take(i as int),
            forall|j: int| 0 <= j < i ==> (#[trigger] all[j]).denominator != 0,
        decreases count - i,
    {
        let at: usize = 8 * i;
        let upper = [data[at], data[at + 1], data[at + 2], data[at + 3]];
        let under = [data[at + 4], data[at + 5], data[at + 6], data[at + 7]];
        assert(upper@ =~= data@.subrange(8 * i, 8 * i + 4));
        assert(under@ =~= data@.subrange(8 * i + 4, 8 * i + 8));
        let value = if signed {
            DngRational {
                numerator: endian.i32(upper) as i64,
                denominator: endian.i32(under) as i64,
            }
        } else {
            DngRational {
                numerator: endian.u32(upper) as i64,
                denominator: endian.u32(under) as i64,
            }
        };
        assert(value == all[i as int]);
        if value.denominator == 0 {
            return Err(TiffError::ZeroDenominator);
        }
        values.push(value);
        assert(all.take(i + 1) =~= all.take(i as int).push(value));
        i = i + 1;
    }
    assert(all.take(count as int) =~= all);
    Ok(values)
}

/// Length of the data before its first zero byte.
pub open spec fn nul_free(data: Seq<u8>) -> nat
    decreases data.len(),
{
    if data.len() > 0 && data[0] != 0 {
        1 + nul_free(data.skip(1))
    } else {
        0
    }
}

proof fn lemma_nul_free(data: Seq<u8>, n: int)
    requires
        0 <= n <= data.len(),
        forall|i: int| 0 <= i < n ==> data[i] != 0,
        n < data.len() ==> data[n] == 0,
    ensures
        nul_free(data) == n,
    decreases n,
{
    if n > 0 {
        assert forall|i: int| 0 <= i < n - 1 implies data.skip(1)[i] != 0 by {
            assert(data.skip(1)[i] == data[i + 1]);
        }
        lemma_nul_free(data.skip(1), n - 1);
    }
}

/// The text of an entry up to its first zero byte, without outer white space.
pub open spec fn entry_text(bytes: Seq<u8>, endian: Endian, entry: TiffEntry) -> Result<
    Option<Seq<char>>,
    TiffError,
> {
    match entry_data(bytes, endian, entry) {
        Err(error) => Err(error),
        Ok(data) => {
            let text = trim(utf8_lossy_text(data.take(nul_free(data) as int)));
            if text.len() == 0 {
                Ok(None)
            } else {
                Ok(Some(text))
            }
        },
    }
}

/// The text of an entry.
pub fn text(bytes: &[u8], endian: Endian, entry: &TiffEntry) -> (r: Result<
    Option<String>,
    TiffError,
>)
    ensures
        match (r, entry_text(bytes@, endian, *entry)) {
            (Ok(text), Ok(expected)) => text_view(text) == expected,
            (Err(error), Err(expected)) => error == expected,
            _ => false,
        },
{
    let data = match entry_bytes(bytes, endian, entry) {
        Ok(data) => data,
        Err(error) => return Err(error),
    };
    let mut end: usize = 0;
    while end < data.len() && data[end] != 0
        invariant
            end <= data.len(),
            forall|i: int| 0 <= i < end ==> data@[i] != 0,
        decreases data.len() - end,
    {
        end = end + 1;
    }
    proof {
        lemma_nul_free(data@, end as int);
    }
    let decoded = utf8_lossy(slice_subrange(data, 0, end));
    assert(data@.subrange(0, end as int) =~= data@.take(end as int));
    let trimmed = trim_string(decoded.as_str());
    if trimmed.as_str().is_empty() {
        Ok(None)
    } else {
        Ok(Some(trimmed))
    }
}

/// Whether a directory holds a colour filter pattern and its extent.
pub open spec fn is_cfa_directory(entries: Map<u16, TiffEntry>) -> bool {
    entries.contains_key(TAG_CFA_PATTERN) && entries.contains_key(TAG_CFA_REPEAT_PATTERN_DIM)
}

/// Of the first `n` directories with a colour filter pattern the one with most
/// pixels, the last one where several have as many.
pub open spec fn raw_directory(
    bytes: Seq<u8>,
    endian: Endian,
    dirs: Seq<Map<u16, TiffEntry>>,
    n: nat,
) -> Option<nat>
    decreases n,
{
    if n == 0 {
        None
    } else {
        let last = (n - 1) as nat;
        let best = raw_directory(bytes, endian, dirs, last);
        if is_cfa_directory(dirs[last as int]) && (best matches Some(other) ==> area(
            bytes,
            endian,
            dirs[other as int],
        ) <= area(bytes, endian, dirs[last as int])) {
            Some(last)
        } else {
            best
        }
    }
}

/// The picture directory has a colour filter pattern, no other such directory has
/// more pixels, and none behind it has as many.
pub proof fn raw_directory_is_last_largest(
    bytes: Seq<u8>,
    endian: Endian,
    dirs: Seq<Map<u16, TiffEntry>>,
    n: nat,
)
    requires
        n <= dirs.len(),
    ensures
        match raw_directory(bytes, endian, dirs, n) {
            None => forall|j: int| 0 <= j < n ==> !is_cfa_directory(#[trigger] dirs[j]),
            Some(raw) => {
                &&& raw < n
                &&& is_cfa_directory(dirs[raw as int])
                &&& forall|j: int|
                    0 <= j < n && is_cfa_directory(#[trigger] dirs[j]) ==> area(
                        bytes,
                        endian,
                        dirs[j],
                    ) <= area(bytes, endian, dirs[raw as int])
                &&& forall|j: int|
                    raw < j < n && is_cfa_directory(#[trigger] dirs[j]) ==> area(
                        bytes,
                        endian,
                        dirs[j],
                    ) < area(bytes, endian, dirs[raw as int])
            },
        },
    decreases n,
{
    if n > 0 {
        raw_directory_is_last_largest(bytes, endian, dirs, (n - 1) as nat);
    }
}

/// The entry with a tag in the first directory from `from` on that has it.
pub open spec fn first_entry(dirs: Seq<Map<u16, TiffEntry>>, tag: u16, from: nat) -> Option<
    TiffEntry,
>
    decreases dirs.len() - from,
{
    if from >= dirs.len() {
        None
    } else if dirs[from as int].contains_key(tag) {
        Some(dirs[from as int][tag])
    } else {
        first_entry(dirs, tag, from + 1)
    }
}

/// The entry with a tag: of the picture directory, else inherited from the first
/// directory that has it.
pub open spec fn inherited_entry(dirs: Seq<Map<u16, TiffEntry>>, raw: nat, tag: u16) -> Option<
    TiffEntry,
> {
    if dirs[raw as int].contains_key(tag) {
        Some(dirs[raw as int][tag])
    } else {
        first_entry(dirs, tag, 0)
    }
}

/// A DNG source under examination.
pub struct DngSource<'a> {
    pub bytes: &'a [u8],
    pub endian: Endian,
    pub ifds: &'a Vec<TiffIfd>,
    /// Index of the picture directory.
    pub raw: usize,
}

impl<'a> DngSource<'a> {
    /// The picture directory exists.
    pub open spec fn wf(&self) -> bool {
        self.raw < self.ifds@.len()
    }

    /// The entries of all directories.
    pub open spec fn dirs(&self) -> Seq<Map<u16, TiffEntry>> {
        entry_maps(self.ifds@)
    }

    /// The entry with a tag, own or inherited.
    pub open spec fn spec_entry(&self, tag: u16) -> Option<TiffEntry> {
        inherited_entry(self.dirs(), self.raw as nat, tag)
    }

    /// The first unsigned value of the entry with a tag.
    pub open spec fn spec_first_unsigned(&self, tag: u16) -> Option<u32> {
        first_of_entry(self.bytes@, self.endian, self.spec_entry(tag))
    }

    /// The entry with a tag, own or inherited.
    pub fn entry(&self, tag: u16) -> (r: Option<TiffEntry>)
        requires
            self.wf(),
        ensures
            r == self.spec_entry(tag),
    {
        let ghost dirs = self.dirs();
        match self.ifds[self.raw].entries.get(&tag) {
            Some(entry) => {
                assert(dirs[self.raw as int] == self.ifds@[self.raw as int]@);
                return Some(*entry);
            },
            None => {},
        }
        let mut i: usize = 0;
        while i < self.ifds.len()
            invariant
                i <= self.ifds.len(),
                dirs == self.dirs(),
                !dirs[self.raw as int].contains_key(tag),
                first_entry(dirs, tag, 0) == first_entry(dirs, tag, i as nat),
            decreases self.ifds.len() - i,
        {
            assert(dirs[i as int] == self.ifds@[i as int]@);
            match self.ifds[i].entries.get(&tag) {
                Some(entry) => return Some(*entry),
                None => {},
            }
            i = i + 1;
        }
        None
    }

    /// The first unsigned value of the entry with a tag.
    pub fn first_unsigned(&self, tag: u16) -> (r: Option<u32>)
        requires
            self.wf(),
        ensures
            r == self.spec_first_unsigned(tag),
    {
        match self.entry(tag) {
            None => None,
            Some(entry) => match unsigned_values(self.bytes, self.endian, &entry) {
                Err(_) => None,
                Ok(values) => if values.len() > 0 {
                    Some(values[0])
                } else {
                    None
                },
            },
        }
    }

    fn rationals(&self, entry: Option<TiffEntry>) -> (r: Result<
        Option<Vec<DngRational>>,
        DngError,
    >)
        ensures
            match (r, optional_rationals(self.bytes@, self.endian, entry)) {
                (Ok(values), Ok(expected)) => (match (values, expected) {
                    (Some(values), Some(expected)) => values@ == expected,
                    (None, None) => true,
                    _ => false,
                }),
                (Err(error), Err(expected)) => error@ == expected,
                _ => false,
            },
    {
        match entry {
            None => Ok(None),
            Some(entry) => match rational_values(self.bytes, self.endian, &entry) {
                Ok(values) => Ok(Some(values)),
                Err(error) => Err(DngError::Tiff(error)),
            },
        }
    }

    fn optional_text(&self, tag: u16) -> (r: Result<Option<String>, DngError>)
        requires
            self.wf(),
        ensures
            match (r, optional_text(self.bytes@, self.endian, self.spec_entry(tag))) {
                (Ok(text), Ok(expected)) => text_view(text) == expected,
                (Err(error), Err(expected)) => error@ == expected,
                _ => false,
            },
    {
        match self.entry(tag) {
            None => Ok(None),
            Some(entry) => match text(self.bytes, self.endian, &entry) {
                Ok(found) => Ok(found),
                Err(error) => Err(DngError::Tiff(error)),
            },
        }
    }

    fn cfa_pattern(&self) -> (r: Result<CameraRawCfaPattern, DngError>)
        requires
            self.wf(),
            is_cfa_directory(self.dirs()[self.raw as int]),
        ensures
            match (r, cfa_of(self.bytes@, self.endian, self.dirs()[self.raw as int])) {
                (Ok(pattern), Ok(expected)) => pattern == expected,
                (Err(error), Err(expected)) => error@ == expected,
                _ => false,
            },
    {
        let ghost dir = self.dirs()[self.raw as int];
        assert(dir == self.ifds@[self.raw as int]@);
        let (extent, pattern) = match (
            self.ifds[self.raw].entries.get(&TAG_CFA_REPEAT_PATTERN_DIM),
            self.ifds[self.raw].entries.get(&TAG_CFA_PATTERN),
        ) {
            (Some(extent), Some(pattern)) => (*extent, *pattern),
            _ => return Err(DngError::NoCfaDirectory),
        };
        let dims = match unsigned_values(self.bytes, self.endian, &extent) {
            Ok(dims) => dims,
            Err(error) => return Err(DngError::Tiff(error)),
        };
        if dims.len() != 2 || dims[0] != 2 || dims[1] != 2 {
            return Err(DngError::UnsupportedCfaDimensions);
        }
        assert(dims@ =~= seq![2u32, 2u32]);
        let cfa = match unsigned_values(self.bytes, self.endian, &pattern) {
            Ok(cfa) => cfa,
            Err(error) => return Err(DngError::Tiff(error)),
        };
        let known = pattern_of_values(&cfa);
        match known {
            Some(known) => Ok(known),
            None => Err(DngError::UnsupportedCfaPattern(cfa)),
        }
    }

    fn is_cinema(&self) -> (r: bool)
        ensures
            r == has_tag(self.dirs(), TAG_CINEMADNG_FRAME_RATE),
    {
        any_has_tag(self.ifds, TAG_CINEMADNG_FRAME_RATE)
    }
}

/// The first unsigned value of an optional entry.
pub open spec fn first_of_entry(bytes: Seq<u8>, endian: Endian, entry: Option<TiffEntry>) -> Option<
    u32,
> {
    match entry {
        None => None,
        Some(entry) => match entry_unsigned(bytes, endian, entry) {
            Err(_) => None,
            Ok(values) => if values.len() > 0 {
                Some(values[0])
            } else {
                None
            },
        },
    }
}

/// The rationals of an optional entry.
pub open spec fn optional_rationals(
    bytes: Seq<u8>,
    endian: Endian,
    entry: Option<TiffEntry>,
) -> Result<Option<Seq<DngRational>>, DngFault> {
    match entry {
        None => Ok(None),
        Some(entry) => match entry_rationals(bytes, endian, entry) {
            Ok(values) => Ok(Some(values)),
            Err(error) => Err(DngFault::Tiff(error)),
        },
    }
}

/// The text of an optional entry.
pub open spec fn optional_text(
    bytes: Seq<u8>,
    endian: Endian,
    entry: Option<TiffEntry>,
) -> Result<Option<Seq<char>>, DngFault> {
    match entry {
        None => Ok(None),
        Some(entry) => match entry_text(bytes, endian, entry) {
            Ok(text) => Ok(text),
            Err(error) => Err(DngFault::Tiff(error)),
        },
    }
}

/// The colour filter that four values stand for: 0 red, 1 green, 2 blue.
pub open spec fn pattern_of(values: Seq<u32>) -> Option<CameraRawCfaPattern> {
    if values == seq![0u32, 1u32, 1u32, 2u32] {
        Some(CameraRawCfaPattern::Rggb)
    } else if values == seq![2u32, 1u32, 1u32, 0u32] {
        Some(CameraRawCfaPattern::Bggr)
    } else if values == seq![1u32, 2u32, 0u32, 1u32] {
        Some(CameraRawCfaPattern::Gbrg)
    } else if values == seq![1u32, 0u32, 2u32, 1u32] {
        Some(CameraRawCfaPattern::Grbg)
    } else {
        None
    }
}

fn is_quad(values: &Vec<u32>, a: u32, b: u32, c: u32, d: u32) -> (r: bool)
    ensures
        r == (values@ == seq![a, b, c, d]),
{
    let r = values.len() == 4 && values[0] == a && values[1] == b && values[2] == c && values[3]
        == d;
    assert(r ==> values@ =~= seq![a, b, c, d]);
    r
}

fn pattern_of_values(values: &Vec<u32>) -> (r: Option<CameraRawCfaPattern>)
    ensures
        r == pattern_of(values@),
{
    if is_quad(values, 0, 1, 1, 2) {
        Some(CameraRawCfaPattern::Rggb)
    } else if is_quad(values, 2, 1, 1, 0) {
        Some(CameraRawCfaPattern::Bggr)
    } else if is_quad(values, 1, 2, 0, 1) {
        Some(CameraRawCfaPattern::Gbrg)
    } else if is_quad(values, 1, 0, 2, 1) {
        Some(CameraRawCfaPattern::Grbg)
    } else {
        None
    }
}

/// The colour filter of a directory that holds one.
pub open spec fn cfa_of(bytes: Seq<u8>, endian: Endian, dir: Map<u16, TiffEntry>) -> Result<
    CameraRawCfaPattern,
    DngFault,
> {
    match entry_unsigned(bytes, endian, dir[TAG_CFA_REPEAT_PATTERN_DIM]) {
        Err(error) => Err(DngFault::Tiff(error)),
        Ok(dims) => if dims != seq![2u32, 2u32] {
            Err(DngFault::UnsupportedCfaDimensions)
        } else {
            match entry_unsigned(bytes, endian, dir[TAG_CFA_PATTERN]) {
                Err(error) => Err(DngFault::Tiff(error)),
                Ok(values) => match pattern_of(values) {
                    Some(pattern) => Ok(pattern),
                    None => Err(DngFault::UnsupportedCfaPattern(values)),
                },
            }
        },
    }
}

/// Whether any directory holds an entry with the tag.
pub open spec fn has_tag(dirs: Seq<Map<u16, TiffEntry>>, tag: u16) -> bool {
    exists|i: int| 0 <= i < dirs.len() && (#[trigger] dirs[i]).contains_key(tag)
}

fn any_has_tag(ifds: &Vec<TiffIfd>, tag: u16) -> (r: bool)
    ensures
        r == has_tag(entry_maps(ifds@), tag),
{
    let ghost dirs = entry_maps(ifds@);
    let mut i: usize = 0;
    while i < ifds.len()
        invariant
            i <= ifds.len(),
            dirs == entry_maps(ifds@),
            forall|j: int| 0 <= j < i ==> !(#[trigger] dirs[j]).contains_key(tag),
        decreases ifds.len() - i,
    {
        assert(dirs[i as int] == ifds@[i as int]@);
        if ifds[i].entries.contains_key(&tag) {
            return true;
        }
        i = i + 1;
    }
    false
}

/// The first `n` of some optional rationals, where there are as many.
pub open spec fn leading(values: Option<Seq<DngRational>>, n: nat) -> Option<Seq<DngRational>> {
    match values {
        Some(values) => if values.len() >= n {
            Some(values.take(n as int))
        } else {
            None
        },
        None => None,
    }
}

/// What the directories of a DNG source say of the picture in directory `raw`.
pub open spec fn facts_of(
    bytes: Seq<u8>,
    endian: Endian,
    dirs: Seq<Map<u16, TiffEntry>>,
    raw: nat,
) -> Result<DngFacts, DngFault> {
    let find = |tag: u16| inherited_entry(dirs, raw, tag);
    let first = |tag: u16| first_of_entry(bytes, endian, inherited_entry(dirs, raw, tag));
    let matrix_entry = match find(TAG_COLOR_MATRIX_1) {
        Some(entry) => Some(entry),
        None => find(TAG_COLOR_MATRIX_2),
    };
    match (
        cfa_of(bytes, endian, dirs[raw as int]),
        first(TAG_IMAGE_WIDTH),
        first(TAG_IMAGE_HEIGHT),
        first(TAG_BITS_PER_SAMPLE),
        optional_text(bytes, endian, find(TAG_MAKE)),
        optional_text(bytes, endian, find(TAG_MODEL)),
        optional_rationals(bytes, endian, find(TAG_AS_SHOT_NEUTRAL)),
        optional_rationals(bytes, endian, matrix_entry),
    ) {
        (Err(fault), _, _, _, _, _, _, _) => Err(fault),
        (_, None, _, _, _, _, _, _) => Err(DngFault::MissingWidth),
        (_, _, None, _, _, _, _, _) => Err(DngFault::MissingHeight),
        (Ok(cfa_pattern), Some(width), Some(height), depth, make, model, neutral, matrix) => {
            if width == 0 || height == 0 {
                Err(DngFault::EmptyExtent)
            } else if !(depth matches Some(bits) && bits <= 255) {
                Err(DngFault::InvalidBitDepth)
            } else {
                match (make, model, neutral, matrix) {
                    (Err(fault), _, _, _) => Err(fault),
                    (_, Err(fault), _, _) => Err(fault),
                    (_, _, Err(fault), _) => Err(fault),
                    (_, _, _, Err(fault)) => Err(fault),
                    (Ok(make), Ok(model), Ok(neutral), Ok(matrix)) => Ok(
                        DngFacts {
                            adapter: if has_tag(dirs, TAG_CINEMADNG_FRAME_RATE) {
                                CameraRawAdapter::CinemaDng
                            } else {
                                CameraRawAdapter::Dng
                            },
                            cfa_pattern,
                            width,
                            height,
                            bit_depth: depth.unwrap() as u8,
                            compression: match first(TAG_COMPRESSION) {
                                Some(scheme) => if scheme <= 65_535 {
                                    scheme as u16
                                } else {
                                    1
                                },
                                None => 1,
                            },
                            make,
                            model,
                            neutral: leading(neutral, 3),
                            matrix: leading(matrix, 9),
                            has_neutral: leading(neutral, 3) is Some,
                            has_matrix: leading(matrix, 9) is Some,
                        },
                    ),
                }
            }
        },
    }
}

/// Byte order that the first two bytes of a TIFF source announce.
pub open spec fn byte_order(bytes: Seq<u8>) -> Option<Endian> {
    if bytes[0] == 0x49 && bytes[1] == 0x49 {
        Some(Endian::Little)
    } else if bytes[0] == 0x4d && bytes[1] == 0x4d {
        Some(Endian::Big)
    } else {
        None
    }
}

/// What a source is as camera RAW: nothing where it is no DNG, its facts where
/// it meets the contract, and a fault where it is a DNG that does not.
pub open spec fn dng_outcome(bytes: Seq<u8>) -> Result<Option<DngFacts>, DngFault> {
    if bytes.len() < 8 || byte_order(bytes) is None {
        Ok(None)
    } else {
        let endian = byte_order(bytes).unwrap();
        if u16_of(endian, bytes.subrange(2, 4)) != 42 {
            Ok(None)
        } else {
            match directories(bytes, endian, u32_of(endian, bytes.subrange(4, 8)) as u32) {
                Err(error) => Err(DngFault::Tiff(error)),
                Ok(dirs) => if !has_tag(dirs, TAG_DNG_VERSION) {
                    Ok(None)
                } else {
                    match raw_directory(bytes, endian, dirs, dirs.len()) {
                        None => Err(DngFault::NoCfaDirectory),
                        Some(raw) => match facts_of(bytes, endian, dirs, raw) {
                            Ok(facts) => Ok(Some(facts)),
                            Err(fault) => Err(fault),
                        },
                    }
                },
            }
        }
    }
}

fn find_raw_directory(bytes: &[u8], endian: Endian, ifds: &Vec<TiffIfd>) -> (r: Option<usize>)
    ensures
        match (r, raw_directory(bytes@, endian, entry_maps(ifds@), ifds@.len())) {
            (Some(raw), Some(expected)) => raw == expected,
            (None, None) => true,
            _ => false,
        },
{
    let ghost dirs = entry_maps(ifds@);
    let mut best: Option<usize> = None;
    let mut best_area: u64 = 0;
    let mut i: usize = 0;
    while i < ifds.len()
        invariant
            i <= ifds.len(),
            dirs == entry_maps(ifds@),
            match (best, raw_directory(bytes@, endian, dirs, i as nat)) {
                (Some(raw), Some(expected)) => raw == expected && raw < i && best_area == area(
                    bytes@,
                    endian,
                    dirs[raw as int],
                ),
                (None, None) => true,
                _ => false,
            },
        decreases ifds.len() - i,
    {
        assert(dirs[i as int] == ifds@[i as int]@);
        if ifds[i].entries.contains_key(&TAG_CFA_PATTERN) && ifds[i].entries.contains_key(
            &TAG_CFA_REPEAT_PATTERN_DIM,
        ) {
            let pixels: u64 = ifd_area(bytes, endian, &ifds[i]);
            if best.is_none() || best_area <= pixels {
                best = Some(i);
                best_area = pixels;
            }
        }
        i = i + 1;
    }
    best
}

fn leading_three(values: &Option<Vec<DngRational>>) -> (r: Option<[DngRational; 3]>)
    ensures
        match (r, values) {
            (Some(array), Some(values)) => values@.len() >= 3 && array@ == values@.take(3),
            (Some(_), None) => false,
            (None, Some(values)) => values@.len() < 3,
            (None, None) => true,
        },
{
    match values {
        Some(values) => if values.len() >= 3 {
            let array = [values[0], values[1], values[2]];
            assert(array@ =~= values@.take(3));
            Some(array)
        } else {
            None
        },
        None => None,
    }
}

fn leading_nine(values: &Option<Vec<DngRational>>) -> (r: Option<[DngRational; 9]>)
    ensures
        match (r, values) {
            (Some(array), Some(values)) => values@.len() >= 9 && array@ == values@.take(9),
            (Some(_), None) => false,
            (None, Some(values)) => values@.len() < 9,
            (None, None) => true,
        },
{
    match values {
        Some(values) => if values.len() >= 9 {
            let array = [
                values[0],
                values[1],
                values[2],
                values[3],
                values[4],
                values[5],
                values[6],
                values[7],
                values[8],
            ];
            assert(array@ =~= values@.take(9));
            Some(array)
        } else {
            None
        },
        None => None,
    }
}

fn describe(source: &DngSource) -> (r: Result<ParsedDng, DngError>)
    requires
        source.wf(),
        is_cfa_directory(source.dirs()[source.raw as int]),
    ensures
        match (r, facts_of(source.bytes@, source.endian, source.dirs(), source.raw as nat)) {
            (Ok(parsed), Ok(facts)) => parsed.wf() && parsed@ == facts,
            (Err(error), Err(fault)) => error@ == fault,
            _ => false,
        },
{
    let cfa_pattern = match source.cfa_pattern() {
        Ok(pattern) => pattern,
        Err(error) => return Err(error),
    };
    let width: u32 = match source.first_unsigned(TAG_IMAGE_WIDTH) {
        Some(width) => width,
        None => return Err(DngError::MissingWidth),
    };
    let height: u32 = match source.first_unsigned(TAG_IMAGE_HEIGHT) {
        Some(height) => height,
        None => return Err(DngError::MissingHeight),
    };
    if width == 0 || height == 0 {
        return Err(DngError::EmptyExtent);
    }
    let bit_depth: u8 = match source.first_unsigned(TAG_BITS_PER_SAMPLE) {
        Some(bits) if bits <= 255 => bits as u8,
        _ => return Err(DngError::InvalidBitDepth),
    };
    let compression: u16 = match source.first_unsigned(TAG_COMPRESSION) {
        Some(scheme) if scheme <= 65_535 => scheme as u16,
        _ => 1,
    };
    let camera_make = match source.optional_text(TAG_MAKE) {
        Ok(text) => text,
        Err(error) => return Err(error),
    };
    let camera_model = match source.optional_text(TAG_MODEL) {
        Ok(text) => text,
        Err(error) => return Err(error),
    };
    let neutral = match source.rationals(source.entry(TAG_AS_SHOT_NEUTRAL)) {
        Ok(values) => values,
        Err(error) => return Err(error),
    };
    let matrix_entry = match source.entry(TAG_COLOR_MATRIX_1) {
        Some(entry) => Some(entry),
        None => source.entry(TAG_COLOR_MATRIX_2),
    };
    let matrix = match source.rationals(matrix_entry) {
        Ok(values) => values,
        Err(error) => return Err(error),
    };
    let as_shot_neutral = leading_three(&neutral);
    let color_matrix = leading_nine(&matrix);
    let adapter = if source.is_cinema() {
        CameraRawAdapter::CinemaDng
    } else {
        CameraRawAdapter::Dng
    };
    let parsed = ParsedDng {
        metadata: CameraRawMetadata {
            adapter,
            cfa_pattern,
            width,
            height,
            bit_depth,
            compression,
            camera_make,
            camera_model,
            has_color_matrix: color_matrix.is_some(),
            has_as_shot_neutral: as_shot_neutral.is_some(),
        },
        as_shot_neutral,
        color_matrix,
    };
    Ok(parsed)
}

/// Reads the camera RAW contract of a source.
pub fn parse_dng(bytes: &[u8]) -> (r: Result<Option<ParsedDng>, DngError>)
    ensures
        match (r, dng_outcome(bytes@)) {
            (Ok(Some(parsed)), Ok(Some(facts))) => parsed.wf() && parsed@ == facts,
            (Ok(None), Ok(None)) => true,
            (Err(error), Err(fault)) => error@ == fault,
            _ => false,
        },
{
    if bytes.len() < 8 {
        return Ok(None);
    }
    let endian = if bytes[0] == 0x49 && bytes[1] == 0x49 {
        Endian::Little
    } else if bytes[0] == 0x4d && bytes[1] == 0x4d {
        Endian::Big
    } else {
        return Ok(None);
    };
    let magic = [bytes[2], bytes[3]];
    assert(magic@ =~= bytes@.subrange(2, 4));
    if endian.u16(magic) != 42 {
        return Ok(None);
    }
    let link = [bytes[4], bytes[5], bytes[6], bytes[7]];
    assert(link@ =~= bytes@.subrange(4, 8));
    let ifds = match parse_ifd_graph(bytes, endian, endian.u32(link)) {
        Ok(ifds) => ifds,
        Err(error) => return Err(DngError::Tiff(error)),
    };
    if !any_has_tag(&ifds, TAG_DNG_VERSION) {
        return Ok(None);
    }
    let raw: usize = match find_raw_directory(bytes, endian, &ifds) {
        Some(raw) => raw,
        None => return Err(DngError::NoCfaDirectory),
    };
    proof {
        raw_directory_is_last_largest(bytes@, endian, entry_maps(ifds@), ifds@.len());
    }
    let source = DngSource { bytes, endian, ifds: &ifds, raw };
    match describe(&source) {
        Ok(parsed) => Ok(Some(parsed)),
        Err(error) => Err(error),
    }
}

/// Reads the camera RAW metadata of a source.
pub fn probe_camera_raw_metadata(bytes: &[u8]) -> (r: Result<Option<CameraRawMetadata>, DngError>)
    ensures
        match (r, dng_outcome(bytes@)) {
            (Ok(Some(metadata)), Ok(Some(facts))) => metadata_agrees(metadata, facts),
            (Ok(None), Ok(None)) => true,
            (Err(error), Err(fault)) => error@ == fault,
            _ => false,
        },
{
    match parse_dng(bytes) {
        Ok(Some(parsed)) => Ok(Some(parsed.metadata)),
        Ok(None) => Ok(None),
        Err(error) => Err(error),
    }
}

/// Whether published metadata says what is known of a source.
pub open spec fn metadata_agrees(metadata: CameraRawMetadata, facts: DngFacts) -> bool {
    &&& metadata.adapter == facts.adapter
    &&& metadata.cfa_pattern == facts.cfa_pattern
    &&& metadata.width == facts.width
    &&& metadata.height == facts.height
    &&& metadata.bit_depth == facts.bit_depth
    &&& metadata.compression == facts.compression
    &&& text_view(metadata.camera_make) == facts.make
    &&& text_view(metadata.camera_model) == facts.model
    &&& metadata.has_color_matrix == facts.has_matrix
    &&& metadata.has_as_shot_neutral == facts.has_neutral
}

/// An entry that the picture directory lacks is taken from the first directory that has it,
/// and from nowhere else; an own entry goes before.
pub proof fn entries_are_inherited_in_order(
    dirs: Seq<Map<u16, TiffEntry>>,
    raw: nat,
    tag: u16,
    i: int,
)
    requires
        raw < dirs.len(),
        0 <= i < dirs.len(),
        dirs[i].contains_key(tag),
        forall|j: int| 0 <= j < i ==> !(#[trigger] dirs[j]).contains_key(tag),
    ensures
        inherited_entry(dirs, raw, tag) == Some(
            if dirs[raw as int].contains_key(tag) {
                dirs[raw as int][tag]
            } else {
                dirs[i][tag]
            },
        ),
{
    lemma_first_entry(dirs, tag, 0, i);
}

proof fn lemma_first_entry(dirs: Seq<Map<u16, TiffEntry>>, tag: u16, from: nat, i: int)
    requires
        from <= i < dirs.len(),
        dirs[i].contains_key(tag),
        forall|j: int| from <= j < i ==> !(#[trigger] dirs[j]).contains_key(tag),
    ensures
        first_entry(dirs, tag, from) == Some(dirs[i][tag]),
    decreases i - from,
{
    if from < i {
        assert(!dirs[from as int].contains_key(tag));
        lemma_first_entry(dirs, tag, from + 1, i);
    }
}

/// A picture is what its entries say, each under the number that the format gives it: width
/// 256, height 257, bits 258, compression 259 or none, maker 271, model 272, the filter
/// 33422, neutral 50728, and the first of the matrices 50721 and 50722. It belongs to a
/// sequence exactly where a directory has the frame rate 51044.
pub proof fn pictures_are_what_their_entries_say(
    bytes: Seq<u8>,
    endian: Endian,
    dirs: Seq<Map<u16, TiffEntry>>,
    raw: nat,
)
    requires
        facts_of(bytes, endian, dirs, raw) is Ok,
    ensures
        ({
            let facts = facts_of(bytes, endian, dirs, raw)->Ok_0;
            let number = |tag: u16|
                first_of_entry(bytes, endian, inherited_entry(dirs, raw, tag));
            let rationals = |tag: u16|
                optional_rationals(bytes, endian, inherited_entry(dirs, raw, tag));
            &&& number(256) == Some(facts.width) && facts.width > 0
            &&& number(257) == Some(facts.height) && facts.height > 0
            &&& number(258) == Some(facts.bit_depth as u32)
            &&& match number(259) {
                Some(scheme) if scheme <= 0xffff => facts.compression == scheme,
                _ => facts.compression == 1,
            }
            &&& optional_text(bytes, endian, inherited_entry(dirs, raw, 271)) == Ok::<
                Option<Seq<char>>,
                DngFault,
            >(facts.make)
            &&& optional_text(bytes, endian, inherited_entry(dirs, raw, 272)) == Ok::<
                Option<Seq<char>>,
                DngFault,
            >(facts.model)
            &&& entry_unsigned(bytes, endian, dirs[raw as int][33_421]) == Ok::<
                Seq<u32>,
                TiffError,
            >(seq![2u32, 2u32])
            &&& entry_unsigned(bytes, endian, dirs[raw as int][33_422]) matches Ok(values)
                && pattern_of(values) == Some(facts.cfa_pattern)
            &&& facts.neutral == leading(rationals(50_728)->Ok_0, 3)
            &&& inherited_entry(dirs, raw, 50_721) is Some ==> facts.matrix == leading(
                rationals(50_721)->Ok_0,
                9,
            )
            &&& inherited_entry(dirs, raw, 50_721) is None ==> facts.matrix == leading(
                rationals(50_722)->Ok_0,
                9,
            )
            &&& facts.has_neutral <==> facts.neutral is Some
            &&& facts.has_matrix <==> facts.matrix is Some
            &&& facts.adapter is CinemaDng <==> has_tag(dirs, 51_044)
        }),
{
}

/// Rationals are as many as the entry counts, numerators before denominators, and none of
/// them has the denominator zero.
pub proof fn rationals_are_read_in_place(bytes: Seq<u8>, endian: Endian, entry: TiffEntry, i: int)
    requires
        entry_rationals(bytes, endian, entry) is Ok,
        0 <= i < entry.count,
    ensures
        ({
            let values = entry_rationals(bytes, endian, entry)->Ok_0;
            let data = entry_data(bytes, endian, entry)->Ok_0;
            &&& values.len() == entry.count
            &&& values[i].denominator != 0
            &&& entry.field_type == 5 || entry.field_type == 10
            &&& entry.field_type == 5 ==> values[i].numerator == u32_of(
                endian,
                data.subrange(8 * i, 8 * i + 4),
            ) && values[i].denominator == u32_of(endian, data.subrange(8 * i + 4, 8 * i + 8))
            &&& entry.field_type == 10 ==> values[i].numerator == i32_of(
                endian,
                data.subrange(8 * i, 8 * i + 4),
            ) && values[i].denominator == i32_of(endian, data.subrange(8 * i + 4, 8 * i + 8))
        }),
{
    let values = entry_rationals(bytes, endian, entry)->Ok_0;
    super::tiff::lemma_data_len(bytes, endian, entry);
    assert(values[i].denominator != 0);
}

/// Only a source that begins as one is camera RAW: with `II` or `MM`, 42 in that order of
/// bytes, and a directory that holds the mark 50706. Such a source is never passed over: it
/// has facts, or a fault.
pub proof fn only_marked_sources_are_camera_raw(bytes: Seq<u8>)
    ensures
        dng_outcome(bytes) != Ok::<Option<DngFacts>, DngFault>(None) ==> {
            &&& bytes.len() >= 8
            &&& (bytes[0] == 0x49 && bytes[1] == 0x49 && bytes[2] == 42 && bytes[3] == 0) || (
            bytes[0] == 0x4d && bytes[1] == 0x4d && bytes[2] == 0 && bytes[3] == 42)
        },
        bytes.len() >= 8 && bytes[0] == 0x49 && bytes[1] == 0x49 && bytes[2] == 42 && bytes[3] == 0
            ==> match directories(
            bytes,
            Endian::Little,
            u32_of(Endian::Little, bytes.subrange(4, 8)) as u32,
        ) {
            Ok(dirs) => (dng_outcome(bytes) == Ok::<Option<DngFacts>, DngFault>(None)) == !has_tag(
                dirs,
                50_706,
            ),
            Err(error) => dng_outcome(bytes) == Err::<Option<DngFacts>, DngFault>(
                DngFault::Tiff(error),
            ),
        },
        bytes.len() >= 8 && bytes[0] == 0x4d && bytes[1] == 0x4d && bytes[2] == 0 && bytes[3] == 42
            ==> match directories(
            bytes,
            Endian::Big,
            u32_of(Endian::Big, bytes.subrange(4, 8)) as u32,
        ) {
            Ok(dirs) => (dng_outcome(bytes) == Ok::<Option<DngFacts>, DngFault>(None)) == !has_tag(
                dirs,
                50_706,
            ),
            Err(error) => dng_outcome(bytes) == Err::<Option<DngFacts>, DngFault>(
                DngFault::Tiff(error),
            ),
        },
{
    if bytes.len() >= 8 {
        assert(bytes.subrange(2, 4)[0] == bytes[2] && bytes.subrange(2, 4)[1] == bytes[3]);
    }
}

/// The text of a fault names what is wrong with the source, and so tells it from the others.
pub proof fn faults_name_what_is_wrong(fault: DngFault)
    ensures
        fault is TooLarge ==> contains_text(dng_reason(fault), "1073741824 byte"@),
        fault is NoCfaDirectory ==> contains_text(dng_reason(fault), "no supported 2x2 CFA"@),
        fault is UnsupportedCfaDimensions ==> contains_text(dng_reason(fault), "only 2x2"@),
        fault is UnsupportedCfaPattern ==> contains_text(dng_reason(fault), "unsupported DNG CFA pattern"@),
        fault is MissingWidth ==> contains_text(dng_reason(fault), "ImageWidth"@),
        fault is MissingHeight ==> contains_text(dng_reason(fault), "ImageLength"@),
        fault is EmptyExtent ==> contains_text(dng_reason(fault), "extent is empty"@),
        fault is InvalidBitDepth ==> contains_text(dng_reason(fault), "BitsPerSample"@),
        fault == DngFault::Tiff(TiffError::EntryOutsideFile) ==> contains_text(dng_reason(fault), "entry points outside"@),
        fault == DngFault::Tiff(TiffError::ZeroDenominator) ==> contains_text(dng_reason(fault), "zero denominator"@),
        fault == DngFault::Tiff(TiffError::CountOutsideFile) ==> contains_text(dng_reason(fault), "count is outside"@),
        fault == DngFault::Tiff(TiffError::EntriesOutsideFile) ==> contains_text(dng_reason(fault), "entries are outside"@),
        fault == DngFault::Tiff(TiffError::NextOutsideFile) ==> contains_text(dng_reason(fault), "next-IFD offset"@),
        fault == DngFault::Tiff(TiffError::TooManyDirectories) ==> contains_text(dng_reason(fault), "more than 32"@),
{
    reveal_strlit("DNG source exceeds the 1073741824 byte safety bound");
    reveal_strlit("1073741824 byte");
    reveal_strlit("DNG source has no supported 2x2 CFA image directory");
    reveal_strlit("no supported 2x2 CFA");
    reveal_strlit("only 2x2 DNG CFA patterns are supported");
    reveal_strlit("only 2x2");
    reveal_strlit("unsupported DNG CFA pattern ");
    reveal_strlit("unsupported DNG CFA pattern");
    reveal_strlit("DNG ImageWidth is missing");
    reveal_strlit("ImageWidth");
    reveal_strlit("DNG ImageLength is missing");
    reveal_strlit("ImageLength");
    reveal_strlit("DNG image extent is empty");
    reveal_strlit("extent is empty");
    reveal_strlit("DNG BitsPerSample is missing or invalid");
    reveal_strlit("BitsPerSample");
    reveal_strlit("TIFF entry points outside the source file");
    reveal_strlit("entry points outside");
    reveal_strlit("DNG rational has a zero denominator");
    reveal_strlit("zero denominator");
    reveal_strlit("TIFF IFD count is outside the file");
    reveal_strlit("count is outside");
    reveal_strlit("TIFF IFD entries are outside the file");
    reveal_strlit("entries are outside");
    reveal_strlit("TIFF next-IFD offset is outside the file");
    reveal_strlit("next-IFD offset");
    reveal_strlit("TIFF contains more than 32 reachable image directories");
    reveal_strlit("more than 32");
    if fault is TooLarge {
        let text = dng_reason(fault);
        assert(text.subrange(23, 38) =~= "1073741824 byte"@);
        assert(occurs_at(text, "1073741824 byte"@, 23));
    }
    if fault is NoCfaDirectory {
        let text = dng_reason(fault);
        assert(text.subrange(15, 35) =~= "no supported 2x2 CFA"@);
        assert(occurs_at(text, "no supported 2x2 CFA"@, 15));
    }
    if fault is UnsupportedCfaDimensions {
        let text = dng_reason(fault);
        assert(text.subrange(0, 8) =~= "only 2x2"@);
        assert(occurs_at(text, "only 2x2"@, 0));
    }
    if fault is UnsupportedCfaPattern {
        let text = dng_reason(fault);
        assert(text.subrange(0, 27) =~= "unsupported DNG CFA pattern"@);
        assert(occurs_at(text, "unsupported DNG CFA pattern"@, 0));
    }
    if fault is MissingWidth {
        let text = dng_reason(fault);
        assert(text.subrange(4, 14) =~= "ImageWidth"@);
        assert(occurs_at(text, "ImageWidth"@, 4));
    }
    if fault is MissingHeight {
        let text = dng_reason(fault);
        assert(text.subrange(4, 15) =~= "ImageLength"@);
        assert(occurs_at(text, "ImageLength"@, 4));
    }
    if fault is EmptyExtent {
        let text = dng_reason(fault);
        assert(text.subrange(10, 25) =~= "extent is empty"@);
        assert(occurs_at(text, "extent is empty"@, 10));
    }
    if fault is InvalidBitDepth {
        let text = dng_reason(fault);
        assert(text.subrange(4, 17) =~= "BitsPerSample"@);
        assert(occurs_at(text, "BitsPerSample"@, 4));
    }
    if fault == DngFault::Tiff(TiffError::EntryOutsideFile) {
        let text = dng_reason(fault);
        assert(text.subrange(5, 25) =~= "entry points outside"@);
        assert(occurs_at(text, "entry points outside"@, 5));
    }
    if fault == DngFault::Tiff(TiffError::ZeroDenominator) {
        let text = dng_reason(fault);
        assert(text.subrange(19, 35) =~= "zero denominator"@);
        assert(occurs_at(text, "zero denominator"@, 19));
    }
    if fault == DngFault::Tiff(TiffError::CountOutsideFile) {
        let text = dng_reason(fault);
        assert(text.subrange(9, 25) =~= "count is outside"@);
        assert(occurs_at(text, "count is outside"@, 9));
    }
    if fault == DngFault::Tiff(TiffError::EntriesOutsideFile) {
        let text = dng_reason(fault);
        assert(text.subrange(9, 28) =~= "entries are outside"@);
        assert(occurs_at(text, "entries are outside"@, 9));
    }
    if fault == DngFault::Tiff(TiffError::NextOutsideFile) {
        let text = dng_reason(fault);
        assert(text.subrange(5, 20) =~= "next-IFD offset"@);
        assert(occurs_at(text, "next-IFD offset"@, 5));
    }
    if fault == DngFault::Tiff(TiffError::TooManyDirectories) {
        let text = dng_reason(fault);
        assert(text.subrange(14, 26) =~= "more than 32"@);
        assert(occurs_at(text, "more than 32"@, 14));
    }
}

/// A source begins with the mark of its byte order: `II` puts the lowest byte first, `MM` the
/// highest.
pub proof fn marks_tell_the_byte_order(bytes: Seq<u8>)
    requires
        bytes.len() >= 2,
    ensures
        byte_order(bytes) is Some <==> bytes[0] == bytes[1] && (bytes[0] as int == 'I' as int
            || bytes[0] as int == 'M' as int),
        byte_order(bytes) == Some(Endian::Little) ==> bytes[0] as int == 'I' as int,
        byte_order(bytes) == Some(Endian::Big) ==> bytes[0] as int == 'M' as int,
{
}

/// A text ends at its first zero byte, or with its data.
pub proof fn texts_end_at_the_first_zero(data: Seq<u8>)
    ensures
        nul_free(data) <= data.len(),
        forall|i: int| 0 <= i < nul_free(data) ==> #[trigger] data[i] != 0,
        nul_free(data) < data.len() ==> data[nul_free(data) as int] == 0,
    decreases data.len(),
{
    if data.len() > 0 && data[0] != 0 {
        let rest = data.skip(1);
        texts_end_at_the_first_zero(rest);
        assert forall|i: int| 0 <= i < nul_free(data) implies #[trigger] data[i] != 0 by {
            if i > 0 {
                assert(data[i] == rest[i - 1]);
            }
        }
        if nul_free(data) < data.len() {
            assert(data[nul_free(data) as int] == rest[nul_free(rest) as int]);
        }
    }
}

/// The text of an entry is what stands before its first zero byte, without white space around
/// it. A blank one is none.
pub proof fn entry_texts_are_trimmed(bytes: Seq<u8>, endian: Endian, entry: TiffEntry)
    ensures
        entry_data(bytes, endian, entry) is Err ==> entry_text(bytes, endian, entry) is Err,
        entry_data(bytes, endian, entry) matches Ok(data) ==> {
            let text = trim(utf8_lossy_text(data.take(nul_free(data) as int)));
            entry_text(bytes, endian, entry) == Ok::<Option<Seq<char>>, TiffError>(
                if text.len() > 0 {
                    Some(text)
                } else {
                    None
                },
            )
        },
{
}

/// Two records of the same facts say the same of the camera, the picture and its colours.
pub proof fn published_metadata_is_what_is_known(
    metadata: CameraRawMetadata,
    facts: DngFacts,
)
    requires
        metadata_agrees(metadata, facts),
    ensures
        metadata.width == facts.width,
        metadata.height == facts.height,
        metadata.bit_depth == facts.bit_depth,
        metadata.compression == facts.compression,
        metadata.adapter == facts.adapter,
        metadata.cfa_pattern == facts.cfa_pattern,
        metadata.has_color_matrix == facts.has_matrix,
        metadata.has_as_shot_neutral == facts.has_neutral,
        metadata.camera_make is Some <==> facts.make is Some,
        metadata.camera_make is Some ==> metadata.camera_make->0@ == facts.make->0,
        metadata.camera_model is Some <==> facts.model is Some,
        metadata.camera_model is Some ==> metadata.camera_model->0@ == facts.model->0,
{
}

/// A colour filter is two by two, and is what its four numbers say.
pub proof fn filters_are_two_by_two(bytes: Seq<u8>, endian: Endian, dir: Map<u16, TiffEntry>)
    ensures
        cfa_of(bytes, endian, dir) matches Ok(pattern) ==> {
            &&& entry_unsigned(bytes, endian, dir[33_421u16]) == Ok::<Seq<u32>, TiffError>(
                seq![2u32, 2u32],
            )
            &&& entry_unsigned(bytes, endian, dir[33_422u16]) is Ok
            &&& pattern_of(entry_unsigned(bytes, endian, dir[33_422u16])->Ok_0) == Some(pattern)
        },
        entry_unsigned(bytes, endian, dir[33_421u16]) == Ok::<Seq<u32>, TiffError>(
            seq![2u32, 2u32],
        ) && entry_unsigned(bytes, endian, dir[33_422u16]) is Ok && pattern_of(
            entry_unsigned(bytes, endian, dir[33_422u16])->Ok_0,
        ) is Some ==> cfa_of(bytes, endian, dir) is Ok,
{
}

} // verus!
