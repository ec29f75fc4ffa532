//! What a private FFmpeg runtime has to offer, and how that is found out.

use vstd::prelude::*;
use vstd::string::*;

use crate::ffmpeg_tools::{FfmpegTool, FfmpegToolSource};
use crate::text::{
    chars_of, contains, contains_text, is_whitespace, lower, matches_at, occurs_at, same_text,
    spec_is_whitespace, to_lower_string, utf8_lossy, utf8_lossy_text,
};

verus! {

/// Whether a character ends a name in a listing.
pub open spec fn ends_name(c: char) -> bool {
    spec_is_whitespace(c) || c == ','
}

/// Whether a listing has a name at the given place. Names stand between white space and
/// commas. An empty one needs a comma beside it.
pub open spec fn name_at(listing: Seq<char>, name: Seq<char>, at: int) -> bool {
    let end = at + name.len();
    &&& occurs_at(listing, name, at)
    &&& forall|k: int| 0 <= k < name.len() ==> !ends_name(#[trigger] name[k])
    &&& at == 0 || ends_name(listing[at - 1])
    &&& end == listing.len() || ends_name(listing[end])
    &&& name.len() > 0 || (at > 0 && listing[at - 1] == ',') || (end < listing.len()
        && listing[end] == ',')
}

/// Whether a listing has a name.
pub open spec fn listing_has(listing: Seq<char>, name: Seq<char>) -> bool {
    exists|at: int| name_at(listing, name, at)
}

fn boundary(c: char) -> (r: bool)
    ensures
        r == ends_name(c),
{
    is_whitespace(c) || c == ','
}

/// Whether a listing has a name.
pub fn listing_contains_name(listing: &str, expected: &str) -> (r: bool)
    ensures
        r == listing_has(listing@, expected@),
{
    let text = chars_of(listing);
    let name = chars_of(expected);
    let size: usize = name.len();
    let total: usize = text.len();
    let mut i: usize = 0;
    while i < size
        invariant
            i <= size == name@.len(),
            name@ == expected@,
            forall|k: int| 0 <= k < i ==> !ends_name(#[trigger] name@[k]),
        decreases size - i,
    {
        if boundary(name[i]) {
            assert(forall|at: int| !name_at(listing@, expected@, at));
            return false;
        }
        i += 1;
    }
    if size > total {
        assert(forall|at: int| !name_at(listing@, expected@, at));
        return false;
    }
    let last: usize = total - size;
    let mut at: usize = 0;
    loop
        invariant
            size == name@.len(),
            total == text@.len(),
            name@ == expected@,
            text@ == listing@,
            size <= total,
            last == total - size,
            at <= last,
            forall|k: int| 0 <= k < size ==> !ends_name(#[trigger] name@[k]),
            forall|i: int| 0 <= i < at ==> !name_at(listing@, expected@, i),
        decreases last - at,
    {
        let end: usize = at + size;
        let starts = at == 0 || boundary(text[at - 1]);
        let ends = end == total || boundary(text[end]);
        let named = size > 0 || (at > 0 && text[at - 1] == ',') || (end < total && text[end]
            == ',');
        if starts && ends && named && matches_at(&text, &name, at) {
            assert(name_at(listing@, expected@, at as int));
            return true;
        }
        assert(!name_at(listing@, expected@, at as int));
        if at == last {
            assert forall|i: int| !name_at(listing@, expected@, i) by {}
            return false;
        }
        at += 1;
    }
}

/// The texts of a list.
pub open spec fn texts(list: Seq<&'static str>) -> Seq<Seq<char>> {
    list.map_values(|text: &'static str| text@)
}

/// The names that a listing does not have, in order.
pub open spec fn missing_names(listing: Seq<char>, required: Seq<Seq<char>>) -> Seq<Seq<char>>
    decreases required.len(),
{
    if required.len() == 0 {
        seq![]
    } else if listing_has(listing, required.last()) {
        missing_names(listing, required.drop_last())
    } else {
        missing_names(listing, required.drop_last()).push(required.last())
    }
}

/// Names with a comma between each two of them.
pub open spec fn joined(names: Seq<Seq<char>>) -> Seq<char>
    decreases names.len(),
{
    if names.len() == 0 {
        seq![]
    } else if names.len() == 1 {
        names[0]
    } else {
        joined(names.drop_last()) + ", "@ + names.last()
    }
}

fn join(names: &Vec<&'static str>) -> (out: String)
    ensures
        out@ == joined(texts(names@)),
{
    let len: usize = names.len();
    let mut out = String::new();
    let mut i: usize = 0;
    while i < len
        invariant
            i <= len == names@.len(),
            out@ == joined(texts(names@.take(i as int))),
        decreases len - i,
    {
        proof {
            assert(texts(names@.take(i + 1)).drop_last() =~= texts(names@.take(i as int)));
            assert(texts(names@.take(i + 1)).last() == names@[i as int]@);
        }
        if i > 0 {
            out.append(", ");
        }
        out.append(names[i]);
        i += 1;
    }
    assert(names@.take(len as int) =~= names@);
    out
}

/// The decoders that the linked libraries have to offer, by the names of the libraries.
pub open spec fn spec_required_linked_decoders() -> Seq<Seq<char>> {
    seq![
        "h264"@,
        "hevc"@,
        "prores"@,
        "dnxhd"@,
        "av1"@,
        "vp9"@,
        "aac"@,
        "mp3"@,
        "flac"@,
        "pcm_s16le"@,
        "pcm_s24le"@,
        "pcm_s32le"@,
        "pcm_f32le"@,
        "png"@,
        "exr"@,
        "dpx"@,
        "tiff"@,
    ]
}

/// The decoders that the linked libraries have to offer, by the names of the libraries.
pub fn required_linked_decoders() -> (r: Vec<&'static str>)
    ensures
        texts(r@) == spec_required_linked_decoders(),
{
    let r: Vec<&'static str> = vec![
        "h264",
        "hevc",
        "prores",
        "dnxhd",
        "av1",
        "vp9",
        "aac",
        "mp3",
        "flac",
        "pcm_s16le",
        "pcm_s24le",
        "pcm_s32le",
        "pcm_f32le",
        "png",
        "exr",
        "dpx",
        "tiff",
    ];
    assert(texts(r@) =~= spec_required_linked_decoders());
    r
}

/// The names of those decoders for people, in the same order.
pub open spec fn spec_required_decoder_labels() -> Seq<Seq<char>> {
    seq![
        "H.264"@,
        "HEVC"@,
        "ProRes"@,
        "DNxHD/DNxHR"@,
        "AV1"@,
        "VP9"@,
        "AAC"@,
        "MP3"@,
        "FLAC"@,
        "PCM S16LE"@,
        "PCM S24LE"@,
        "PCM S32LE"@,
        "PCM F32LE"@,
        "PNG"@,
        "OpenEXR"@,
        "DPX"@,
        "TIFF"@,
    ]
}

/// The names of those decoders for people, in the same order.
pub fn required_decoder_labels() -> (r: Vec<&'static str>)
    ensures
        texts(r@) == spec_required_decoder_labels(),
{
    let r: Vec<&'static str> = vec![
        "H.264",
        "HEVC",
        "ProRes",
        "DNxHD/DNxHR",
        "AV1",
        "VP9",
        "AAC",
        "MP3",
        "FLAC",
        "PCM S16LE",
        "PCM S24LE",
        "PCM S32LE",
        "PCM F32LE",
        "PNG",
        "OpenEXR",
        "DPX",
        "TIFF",
    ];
    assert(texts(r@) =~= spec_required_decoder_labels());
    r
}

/// The encoders that the command has to offer.
pub open spec fn spec_required_command_encoders() -> Seq<Seq<char>> {
    seq![
        "libx264"@,
        "libx265"@,
        "libaom-av1"@,
        "prores_ks"@,
        "dnxhd"@,
        "gif"@,
        "aac"@,
        "pcm_s16le"@,
        "pcm_s24le"@,
        "pcm_s32le"@,
        "pcm_f32le"@,
        "png"@,
        "exr"@,
        "dpx"@,
        "tiff"@,
    ]
}

/// The encoders that the command has to offer.
pub fn required_command_encoders() -> (r: Vec<&'static str>)
    ensures
        texts(r@) == spec_required_command_encoders(),
{
    let r: Vec<&'static str> = vec![
        "libx264",
        "libx265",
        "libaom-av1",
        "prores_ks",
        "dnxhd",
        "gif",
        "aac",
        "pcm_s16le",
        "pcm_s24le",
        "pcm_s32le",
        "pcm_f32le",
        "png",
        "exr",
        "dpx",
        "tiff",
    ];
    assert(texts(r@) =~= spec_required_command_encoders());
    r
}

/// The filters that the command has to offer.
pub open spec fn spec_required_command_filters() -> Seq<Seq<char>> {
    seq![
        "scale"@,
        "setparams"@,
        "pan"@,
        "anullsrc"@,
    ]
}

/// The filters that the command has to offer.
pub fn required_command_filters() -> (r: Vec<&'static str>)
    ensures
        texts(r@) == spec_required_command_filters(),
{
    let r: Vec<&'static str> = vec![
        "scale",
        "setparams",
        "pan",
        "anullsrc",
    ];
    assert(texts(r@) =~= spec_required_command_filters());
    r
}

/// The containers that the command has to write.
pub open spec fn spec_required_command_muxers() -> Seq<Seq<char>> {
    seq![
        "mp4"@,
        "mov"@,
        "matroska"@,
        "webm"@,
        "mxf"@,
        "gif"@,
        "image2"@,
    ]
}

/// The containers that the command has to write.
pub fn required_command_muxers() -> (r: Vec<&'static str>)
    ensures
        texts(r@) == spec_required_command_muxers(),
{
    let r: Vec<&'static str> = vec![
        "mp4",
        "mov",
        "matroska",
        "webm",
        "mxf",
        "gif",
        "image2",
    ];
    assert(texts(r@) =~= spec_required_command_muxers());
    r
}

/// The names for people of the decoders that are not there, in order.
pub open spec fn missing_labels(found: Seq<bool>) -> Seq<Seq<char>>
    decreases found.len(),
{
    if found.len() == 0 {
        seq![]
    } else if found.last() {
        missing_labels(found.drop_last())
    } else {
        missing_labels(found.drop_last()).push(
            spec_required_decoder_labels()[found.len() - 1],
        )
    }
}

/// Checks that the linked libraries have every decoder that is needed. `found` tells of
/// each required one, in order, whether it is there.
pub fn verify_required_decoders(found: &Vec<bool>) -> (r: Result<(), String>)
    requires
        found@.len() == spec_required_decoder_labels().len(),
    ensures
        match r {
            Ok(()) => missing_labels(found@).len() == 0,
            Err(reason) => missing_labels(found@).len() > 0 && reason@
                == "linked FFmpeg runtime is missing required decoders: "@ + joined(
                missing_labels(found@),
            ) + "; install the documented Mondrian product runtime profile"@,
        },
{
    let labels = required_decoder_labels();
    let len: usize = found.len();
    let mut missing: Vec<&'static str> = Vec::new();
    let mut i: usize = 0;
    assert(found@.take(0) =~= Seq::<bool>::empty());
    assert(texts(missing@) =~= missing_labels(found@.take(0)));
    while i < len
        invariant
            i <= len == found@.len(),
            len == spec_required_decoder_labels().len(),
            texts(labels@) == spec_required_decoder_labels(),
            texts(missing@) == missing_labels(found@.take(i as int)),
        decreases len - i,
    {
        assert(found@.take(i + 1).drop_last() =~= found@.take(i as int));
        assert(texts(labels@).len() == labels@.len());
        if !found[i] {
            let ghost before = missing@;
            missing.push(labels[i]);
            assert(texts(labels@)[i as int] == labels@[i as int]@);
            assert(texts(missing@) =~= texts(before).push(labels@[i as int]@));
        }
        i += 1;
    }
    assert(found@.take(len as int) =~= found@);
    if missing.len() == 0 {
        return Ok(());
    }
    let mut reason = "linked FFmpeg runtime is missing required decoders: ".to_owned();
    reason.append(join(&missing).as_str());
    reason.append("; install the documented Mondrian product runtime profile");
    Err(reason)
}

/// The text of a listing that lacks names.
pub open spec fn listing_reason(kind: Seq<char>, missing: Seq<Seq<char>>) -> Seq<char> {
    "packaged FFmpeg is missing required "@ + kind + ": "@ + joined(missing)
}

/// Checks that a listing has every required name.
pub fn verify_listing(kind: &str, listing: &str, required: &Vec<&'static str>) -> (r: Result<
    (),
    String,
>)
    ensures
        match r {
            Ok(()) => missing_names(listing@, texts(required@)).len() == 0,
            Err(reason) => missing_names(listing@, texts(required@)).len() > 0 && reason@
                == listing_reason(kind@, missing_names(listing@, texts(required@))),
        },
{
    let len: usize = required.len();
    let mut missing: Vec<&'static str> = Vec::new();
    let mut i: usize = 0;
    assert(texts(required@.take(0)) =~= Seq::<Seq<char>>::empty());
    assert(texts(missing@) =~= missing_names(listing@, texts(required@.take(0))));
    while i < len
        invariant
            i <= len == required@.len(),
            texts(missing@) == missing_names(listing@, texts(required@.take(i as int))),
        decreases len - i,
    {
        assert(texts(required@.take(i + 1)).drop_last() =~= texts(required@.take(i as int)));
        assert(texts(required@.take(i + 1)).last() == required@[i as int]@);
        if !listing_contains_name(listing, required[i]) {
            let ghost before = missing@;
            missing.push(required[i]);
            assert(texts(missing@) =~= texts(before).push(required@[i as int]@));
        }
        i += 1;
    }
    assert(required@.take(len as int) =~= required@);
    if missing.len() == 0 {
        return Ok(());
    }
    let mut reason = "packaged FFmpeg is missing required ".to_owned();
    reason.append(kind);
    reason.append(": ");
    reason.append(join(&missing).as_str());
    Err(reason)
}

/// Checks that a tool was found beside the application.
pub fn require_packaged_tool(source: FfmpegToolSource, tool: FfmpegTool) -> (r: Result<(), String>)
    ensures
        match r {
            Ok(()) => source is Packaged,
            Err(reason) => source is SearchPath && reason@ == "packaged "@
                + tool.spec_command_name()
                + " is missing beside the Mondrian executable; release verification may not fall back to PATH"@,
        },
{
    match source {
        FfmpegToolSource::Packaged => Ok(()),
        FfmpegToolSource::SearchPath => {
            let mut reason = "packaged ".to_owned();
            reason.append(tool.command_name());
            reason.append(
                " is missing beside the Mondrian executable; release verification may not fall back to PATH",
            );
            Err(reason)
        },
    }
}

/// How a command ended.
#[derive(Debug)]
pub enum CommandEnd {
    /// It could not be started.
    NotStarted {
        error: String,
    },
    Ended {
        success: bool,
        /// How the system describes the end.
        status: String,
        stdout: Vec<u8>,
        stderr: Vec<u8>,
    },
}

/// The output of a command, both streams one after the other, or why there is none.
pub fn command_output(program: &str, end: &CommandEnd) -> (r: Result<String, String>)
    ensures
        match *end {
            CommandEnd::NotStarted { error } => r matches Err(reason) && reason@
                == "failed to start packaged media tool "@ + program@ + ": "@ + error@,
            CommandEnd::Ended { success, status, stdout, stderr } => {
                let text = utf8_lossy_text(stdout@) + utf8_lossy_text(stderr@);
                match r {
                    Ok(output) => success && output@ == text,
                    Err(reason) => !success && reason@ == "packaged media tool "@ + program@
                        + " exited with "@ + status@ + ": "@ + text,
                }
            },
        },
{
    match end {
        CommandEnd::NotStarted { error } => {
            let mut reason = "failed to start packaged media tool ".to_owned();
            reason.append(program);
            reason.append(": ");
            reason.append(error.as_str());
            Err(reason)
        },
        CommandEnd::Ended { success, status, stdout, stderr } => {
            let mut text = utf8_lossy(stdout.as_slice());
            let errors = utf8_lossy(stderr.as_slice());
            text.append(errors.as_str());
            if *success {
                Ok(text)
            } else {
                let mut reason = "packaged media tool ".to_owned();
                reason.append(program);
                reason.append(" exited with ");
                reason.append(status.as_str());
                reason.append(": ");
                reason.append(text.as_str());
                Err(reason)
            }
        },
    }
}

/// The commands that are run to check a packaged runtime, in order.
#[derive(Debug, Clone, Copy, PartialEq, Eq, Structural)]
pub enum RuntimeCheck {
    FfmpegVersion,
    FfprobeVersion,
    Encoders,
    Filters,
    Muxers,
}

impl RuntimeCheck {
    /// The tool that is run.
    pub open spec fn spec_tool(self) -> FfmpegTool {
        if self is FfprobeVersion {
            FfmpegTool::Ffprobe
        } else {
            FfmpegTool::Ffmpeg
        }
    }

    /// The tool that is run.
    pub fn tool(self) -> (r: FfmpegTool)
        ensures
            r == self.spec_tool(),
    {
        match self {
            RuntimeCheck::FfprobeVersion => FfmpegTool::Ffprobe,
            _ => FfmpegTool::Ffmpeg,
        }
    }

    /// What the tool is asked for, after `-hide_banner`.
    pub open spec fn spec_argument(self) -> Seq<char> {
        match self {
            RuntimeCheck::FfmpegVersion | RuntimeCheck::FfprobeVersion => "-version"@,
            RuntimeCheck::Encoders => "-encoders"@,
            RuntimeCheck::Filters => "-filters"@,
            RuntimeCheck::Muxers => "-muxers"@,
        }
    }

    /// What the tool is asked for, after `-hide_banner`.
    pub fn argument(self) -> (r: &'static str)
        ensures
            r@ == self.spec_argument(),
    {
        match self {
            RuntimeCheck::FfmpegVersion | RuntimeCheck::FfprobeVersion => "-version",
            RuntimeCheck::Encoders => "-encoders",
            RuntimeCheck::Filters => "-filters",
            RuntimeCheck::Muxers => "-muxers",
        }
    }

    /// The command that follows, if any.
    pub open spec fn spec_next(self) -> Option<RuntimeCheck> {
        match self {
            RuntimeCheck::FfmpegVersion => Some(RuntimeCheck::FfprobeVersion),
            RuntimeCheck::FfprobeVersion => Some(RuntimeCheck::Encoders),
            RuntimeCheck::Encoders => Some(RuntimeCheck::Filters),
            RuntimeCheck::Filters => Some(RuntimeCheck::Muxers),
            RuntimeCheck::Muxers => None,
        }
    }

    /// Why the output of the command rules the runtime out, if it does.
    pub open spec fn objection(self, output: Seq<char>) -> Option<Seq<char>> {
        match self {
            RuntimeCheck::FfmpegVersion => if contains_text(output, "--enable-nonfree"@) {
                Some(
                    "packaged FFmpeg was built with --enable-nonfree and is not redistributable"@,
                )
            } else {
                None
            },
            RuntimeCheck::FfprobeVersion => None,
            RuntimeCheck::Encoders => listing_objection(
                "encoders"@,
                output,
                spec_required_command_encoders(),
            ),
            RuntimeCheck::Filters => listing_objection(
                "filters"@,
                output,
                spec_required_command_filters(),
            ),
            RuntimeCheck::Muxers => listing_objection(
                "muxers"@,
                output,
                spec_required_command_muxers(),
            ),
        }
    }

    /// Judges the output of the command, and gives the command that follows, if any.
    pub fn advance(self, output: &str) -> (r: Result<Option<RuntimeCheck>, String>)
        ensures
            match r {
                Ok(next) => self.objection(output@) is None && next == self.spec_next(),
                Err(reason) => self.objection(output@) == Some(reason@),
            },
    {
        match self {
            RuntimeCheck::FfmpegVersion => {
                if contains(output, "--enable-nonfree") {
                    return Err(
                        "packaged FFmpeg was built with --enable-nonfree and is not redistributable".to_owned(),
                    );
                }
                Ok(Some(RuntimeCheck::FfprobeVersion))
            },
            RuntimeCheck::FfprobeVersion => Ok(Some(RuntimeCheck::Encoders)),
            RuntimeCheck::Encoders => match verify_listing(
                "encoders",
                output,
                &required_command_encoders(),
            ) {
                Ok(()) => Ok(Some(RuntimeCheck::Filters)),
                Err(reason) => Err(reason),
            },
            RuntimeCheck::Filters => match verify_listing(
                "filters",
                output,
                &required_command_filters(),
            ) {
                Ok(()) => Ok(Some(RuntimeCheck::Muxers)),
                Err(reason) => Err(reason),
            },
            RuntimeCheck::Muxers => match verify_listing(
                "muxers",
                output,
                &required_command_muxers(),
            ) {
                Ok(()) => Ok(None),
                Err(reason) => Err(reason),
            },
        }
    }
}

/// What is wrong with a listing, if anything.
pub open spec fn listing_objection(
    kind: Seq<char>,
    listing: Seq<char>,
    required: Seq<Seq<char>>,
) -> Option<Seq<char>> {
    if missing_names(listing, required).len() == 0 {
        None
    } else {
        Some(listing_reason(kind, missing_names(listing, required)))
    }
}

/// Why the libraries could not be initialized, as callers hear it.
pub fn init_failure(reason: &str) -> (text: String)
    ensures
        text@ == "ffmpeg init failed: "@ + reason@,
{
    let mut text = "ffmpeg init failed: ".to_owned();
    text.append(reason);
    text
}

/// The level of a setting in lower case, if there is such a level.
pub open spec fn log_level_of(setting: Seq<char>) -> Option<i32> {
    if setting == "quiet"@ {
        Some(-8i32)
    } else if setting == "panic"@ {
        Some(0)
    } else if setting == "fatal"@ {
        Some(8)
    } else if setting == "error"@ {
        Some(16)
    } else if setting == "warning"@ {
        Some(24)
    } else if setting == "info"@ {
        Some(32)
    } else if setting == "verbose"@ {
        Some(40)
    } else if setting == "debug"@ {
        Some(48)
    } else if setting == "trace"@ {
        Some(56)
    } else {
        None
    }
}

/// How much the libraries log. Fatal faults alone, unless the setting names another
/// level.
pub fn ffmpeg_log_level_from_env_value(value: Option<String>) -> (r: i32)
    ensures
        r == (match value {
            Some(setting) => match log_level_of(lower(setting@)) {
                Some(level) => level,
                None => 8i32,
            },
            None => 8i32,
        }),
{
    let setting = match value {
        Some(text) => to_lower_string(text.as_str()),
        None => return 8,
    };
    let setting = setting.as_str();
    if same_text(setting, "quiet") {
        -8
    } else if same_text(setting, "panic") {
        0
    } else if same_text(setting, "fatal") {
        8
    } else if same_text(setting, "error") {
        16
    } else if same_text(setting, "warning") {
        24
    } else if same_text(setting, "info") {
        32
    } else if same_text(setting, "verbose") {
        40
    } else if same_text(setting, "debug") {
        48
    } else if same_text(setting, "trace") {
        56
    } else {
        8
    }
}

/// A runtime that passes a listing has every required name: nothing is overlooked.
pub proof fn nothing_required_is_overlooked(listing: Seq<char>, required: Seq<Seq<char>>, i: int)
    requires
        missing_names(listing, required).len() == 0,
        0 <= i < required.len(),
    ensures
        listing_has(listing, required[i]),
    decreases required.len(),
{
    if i < required.len() - 1 {
        nothing_required_is_overlooked(listing, required.drop_last(), i);
    }
}

/// Every required decoder has its name for people in the same place.
pub proof fn labels_name_their_decoders(i: int)
    requires
        0 <= i < spec_required_linked_decoders().len(),
    ensures
        spec_required_decoder_labels().len() == spec_required_linked_decoders().len(),
        spec_required_decoder_labels()[i] == "H.264"@ ==> spec_required_linked_decoders()[i] == "h264"@,
        spec_required_decoder_labels()[i] == "HEVC"@ ==> spec_required_linked_decoders()[i] == "hevc"@,
        spec_required_decoder_labels()[i] == "ProRes"@ ==> spec_required_linked_decoders()[i] == "prores"@,
        spec_required_decoder_labels()[i] == "DNxHD/DNxHR"@ ==> spec_required_linked_decoders()[i] == "dnxhd"@,
        spec_required_decoder_labels()[i] == "AV1"@ ==> spec_required_linked_decoders()[i] == "av1"@,
        spec_required_decoder_labels()[i] == "VP9"@ ==> spec_required_linked_decoders()[i] == "vp9"@,
        spec_required_decoder_labels()[i] == "AAC"@ ==> spec_required_linked_decoders()[i] == "aac"@,
        spec_required_decoder_labels()[i] == "MP3"@ ==> spec_required_linked_decoders()[i] == "mp3"@,
        spec_required_decoder_labels()[i] == "FLAC"@ ==> spec_required_linked_decoders()[i] == "flac"@,
        spec_required_decoder_labels()[i] == "PCM S16LE"@ ==> spec_required_linked_decoders()[i] == "pcm_s16le"@,
        spec_required_decoder_labels()[i] == "PCM S24LE"@ ==> spec_required_linked_decoders()[i] == "pcm_s24le"@,
        spec_required_decoder_labels()[i] == "PCM S32LE"@ ==> spec_required_linked_decoders()[i] == "pcm_s32le"@,
        spec_required_decoder_labels()[i] == "PCM F32LE"@ ==> spec_required_linked_decoders()[i] == "pcm_f32le"@,
        spec_required_decoder_labels()[i] == "PNG"@ ==> spec_required_linked_decoders()[i] == "png"@,
        spec_required_decoder_labels()[i] == "OpenEXR"@ ==> spec_required_linked_decoders()[i] == "exr"@,
        spec_required_decoder_labels()[i] == "DPX"@ ==> spec_required_linked_decoders()[i] == "dpx"@,
        spec_required_decoder_labels()[i] == "TIFF"@ ==> spec_required_linked_decoders()[i] == "tiff"@,
{
    reveal_strlit("H.264");
    reveal_strlit("HEVC");
    reveal_strlit("ProRes");
    reveal_strlit("DNxHD/DNxHR");
    reveal_strlit("AV1");
    reveal_strlit("VP9");
    reveal_strlit("AAC");
    reveal_strlit("MP3");
    reveal_strlit("FLAC");
    reveal_strlit("PCM S16LE");
    reveal_strlit("PCM S24LE");
    reveal_strlit("PCM S32LE");
    reveal_strlit("PCM F32LE");
    reveal_strlit("PNG");
    reveal_strlit("OpenEXR");
    reveal_strlit("DPX");
    reveal_strlit("TIFF");
    assert("H.264"@.len() == 5);
    assert("HEVC"@.len() == 4);
    assert("ProRes"@.len() == 6);
    assert("DNxHD/DNxHR"@.len() == 11);
    assert("AV1"@.len() == 3);
    assert("VP9"@.len() == 3);
    assert("AAC"@.len() == 3);
    assert("MP3"@.len() == 3);
    assert("FLAC"@.len() == 4);
    assert("PCM S16LE"@.len() == 9);
    assert("PCM S24LE"@.len() == 9);
    assert("PCM S32LE"@.len() == 9);
    assert("PCM F32LE"@.len() == 9);
    assert("PNG"@.len() == 3);
    assert("OpenEXR"@.len() == 7);
    assert("DPX"@.len() == 3);
    assert("TIFF"@.len() == 4);
    assert("HEVC"@[0] != "FLAC"@[0]);
    assert("HEVC"@[0] != "TIFF"@[0]);
    assert("AV1"@[0] != "VP9"@[0]);
    assert("AV1"@[1] != "AAC"@[1]);
    assert("AV1"@[0] != "MP3"@[0]);
    assert("AV1"@[0] != "PNG"@[0]);
    assert("AV1"@[0] != "DPX"@[0]);
    assert("VP9"@[0] != "AAC"@[0]);
    assert("VP9"@[0] != "MP3"@[0]);
    assert("VP9"@[0] != "PNG"@[0]);
    assert("VP9"@[0] != "DPX"@[0]);
    assert("AAC"@[0] != "MP3"@[0]);
    assert("AAC"@[0] != "PNG"@[0]);
    assert("AAC"@[0] != "DPX"@[0]);
    assert("MP3"@[0] != "PNG"@[0]);
    assert("MP3"@[0] != "DPX"@[0]);
    assert("FLAC"@[0] != "TIFF"@[0]);
    assert("PCM S16LE"@[5] != "PCM S24LE"@[5]);
    assert("PCM S16LE"@[5] != "PCM S32LE"@[5]);
    assert("PCM S16LE"@[4] != "PCM F32LE"@[4]);
    assert("PCM S24LE"@[5] != "PCM S32LE"@[5]);
    assert("PCM S24LE"@[4] != "PCM F32LE"@[4]);
    assert("PCM S32LE"@[4] != "PCM F32LE"@[4]);
    assert("PNG"@[0] != "DPX"@[0]);
}

/// Every codec that is imported has a required decoder. A listing that lacks one of them is refused.
pub proof fn every_imported_codec_is_required(listing: Seq<char>)
    requires
        missing_names(listing, spec_required_linked_decoders()).len() == 0,
    ensures
        listing_has(listing, "h264"@),
        listing_has(listing, "hevc"@),
        listing_has(listing, "prores"@),
        listing_has(listing, "dnxhd"@),
        listing_has(listing, "av1"@),
        listing_has(listing, "vp9"@),
        listing_has(listing, "aac"@),
        listing_has(listing, "mp3"@),
        listing_has(listing, "flac"@),
        listing_has(listing, "pcm_s16le"@),
        listing_has(listing, "pcm_s24le"@),
        listing_has(listing, "pcm_s32le"@),
        listing_has(listing, "pcm_f32le"@),
        listing_has(listing, "png"@),
        listing_has(listing, "exr"@),
        listing_has(listing, "dpx"@),
        listing_has(listing, "tiff"@),
{
    let required = spec_required_linked_decoders();
    nothing_required_is_overlooked(listing, required, 0);
    nothing_required_is_overlooked(listing, required, 1);
    nothing_required_is_overlooked(listing, required, 2);
    nothing_required_is_overlooked(listing, required, 3);
    nothing_required_is_overlooked(listing, required, 4);
    nothing_required_is_overlooked(listing, required, 5);
    nothing_required_is_overlooked(listing, required, 6);
    nothing_required_is_overlooked(listing, required, 7);
    nothing_required_is_overlooked(listing, required, 8);
    nothing_required_is_overlooked(listing, required, 9);
    nothing_required_is_overlooked(listing, required, 10);
    nothing_required_is_overlooked(listing, required, 11);
    nothing_required_is_overlooked(listing, required, 12);
    nothing_required_is_overlooked(listing, required, 13);
    nothing_required_is_overlooked(listing, required, 14);
    nothing_required_is_overlooked(listing, required, 15);
    nothing_required_is_overlooked(listing, required, 16);
}

/// Every codec that is exported has a required encoder. A listing that lacks one of them is refused.
pub proof fn every_exported_codec_is_required(listing: Seq<char>)
    requires
        missing_names(listing, spec_required_command_encoders()).len() == 0,
    ensures
        listing_has(listing, "libx264"@),
        listing_has(listing, "libx265"@),
        listing_has(listing, "libaom-av1"@),
        listing_has(listing, "prores_ks"@),
        listing_has(listing, "dnxhd"@),
        listing_has(listing, "gif"@),
        listing_has(listing, "aac"@),
        listing_has(listing, "pcm_s16le"@),
        listing_has(listing, "pcm_s24le"@),
        listing_has(listing, "pcm_s32le"@),
        listing_has(listing, "pcm_f32le"@),
        listing_has(listing, "png"@),
        listing_has(listing, "exr"@),
        listing_has(listing, "dpx"@),
        listing_has(listing, "tiff"@),
{
    let required = spec_required_command_encoders();
    nothing_required_is_overlooked(listing, required, 0);
    nothing_required_is_overlooked(listing, required, 1);
    nothing_required_is_overlooked(listing, required, 2);
    nothing_required_is_overlooked(listing, required, 3);
    nothing_required_is_overlooked(listing, required, 4);
    nothing_required_is_overlooked(listing, required, 5);
    nothing_required_is_overlooked(listing, required, 6);
    nothing_required_is_overlooked(listing, required, 7);
    nothing_required_is_overlooked(listing, required, 8);
    nothing_required_is_overlooked(listing, required, 9);
    nothing_required_is_overlooked(listing, required, 10);
    nothing_required_is_overlooked(listing, required, 11);
    nothing_required_is_overlooked(listing, required, 12);
    nothing_required_is_overlooked(listing, required, 13);
    nothing_required_is_overlooked(listing, required, 14);
}

/// Every filter that commands use is required. A listing that lacks one of them is refused.
pub proof fn every_used_filter_is_required(listing: Seq<char>)
    requires
        missing_names(listing, spec_required_command_filters()).len() == 0,
    ensures
        listing_has(listing, "scale"@),
        listing_has(listing, "setparams"@),
        listing_has(listing, "pan"@),
        listing_has(listing, "anullsrc"@),
{
    let required = spec_required_command_filters();
    nothing_required_is_overlooked(listing, required, 0);
    nothing_required_is_overlooked(listing, required, 1);
    nothing_required_is_overlooked(listing, required, 2);
    nothing_required_is_overlooked(listing, required, 3);
}

/// Every container that is exported is required. A listing that lacks one of them is refused.
pub proof fn every_exported_container_is_required(listing: Seq<char>)
    requires
        missing_names(listing, spec_required_command_muxers()).len() == 0,
    ensures
        listing_has(listing, "mp4"@),
        listing_has(listing, "mov"@),
        listing_has(listing, "matroska"@),
        listing_has(listing, "webm"@),
        listing_has(listing, "mxf"@),
        listing_has(listing, "gif"@),
        listing_has(listing, "image2"@),
{
    let required = spec_required_command_muxers();
    nothing_required_is_overlooked(listing, required, 0);
    nothing_required_is_overlooked(listing, required, 1);
    nothing_required_is_overlooked(listing, required, 2);
    nothing_required_is_overlooked(listing, required, 3);
    nothing_required_is_overlooked(listing, required, 4);
    nothing_required_is_overlooked(listing, required, 5);
    nothing_required_is_overlooked(listing, required, 6);
}

/// What is missing of the required names is what the listing does not have, in order.
pub proof fn the_missing_are_told(listing: Seq<char>, required: Seq<Seq<char>>)
    ensures
        missing_names(listing, required) == required.filter(
            |name: Seq<char>| !listing_has(listing, name),
        ),
    decreases required.len(),
{
    reveal(Seq::filter);
    if required.len() > 0 {
        the_missing_are_told(listing, required.drop_last());
    }
}

/// A listing without white space and commas has one name: the whole of it.
pub proof fn plain_listings_have_one_name(listing: Seq<char>, name: Seq<char>)
    requires
        forall|i: int| 0 <= i < listing.len() ==> !spec_is_whitespace(#[trigger] listing[i])
            && listing[i] != ',',
    ensures
        listing_has(listing, name) <==> name == listing && listing.len() > 0,
{
    if listing_has(listing, name) {
        let at = choose|at: int| name_at(listing, name, at);
        let end = at + name.len();
        if at > 0 {
            assert(!ends_name(listing[at - 1]));
        }
        if end < listing.len() {
            assert(!ends_name(listing[end]));
        }
        assert(listing.subrange(0, listing.len() as int) =~= listing);
    }
    if name == listing && listing.len() > 0 {
        assert(listing.subrange(0, listing.len() as int) =~= listing);
        assert(occurs_at(listing, name, 0));
        assert(name_at(listing, name, 0));
    }
}

/// White space and commas part a listing: it has a name exactly where one of the parts has.
pub proof fn listings_part_at_boundaries(
    front: Seq<char>,
    boundary: char,
    behind: Seq<char>,
    name: Seq<char>,
)
    requires
        spec_is_whitespace(boundary) || boundary == ',',
        name.len() > 0,
    ensures
        listing_has(front.push(boundary) + behind, name) <==> listing_has(front, name)
            || listing_has(behind, name),
{
    let whole = front.push(boundary) + behind;
    let cut = front.len() as int;
    if listing_has(front, name) {
        let at = choose|at: int| name_at(front, name, at);
        assert(whole.subrange(at, at + name.len()) =~= front.subrange(at, at + name.len()));
        assert(occurs_at(whole, name, at));
        if at + name.len() == cut {
            assert(whole[cut] == boundary);
        }
        assert(name_at(whole, name, at));
    }
    if listing_has(behind, name) {
        let at = choose|at: int| name_at(behind, name, at);
        let shifted = at + cut + 1;
        assert(whole.subrange(shifted, shifted + name.len()) =~= behind.subrange(
            at,
            at + name.len(),
        ));
        assert(occurs_at(whole, name, shifted));
        if at == 0 {
            assert(whole[shifted - 1] == boundary);
        } else {
            assert(whole[shifted - 1] == behind[at - 1]);
        }
        assert(name_at(whole, name, shifted));
    }
    if listing_has(whole, name) {
        let at = choose|at: int| name_at(whole, name, at);
        let end = at + name.len();
        if at <= cut < end {
            assert(whole.subrange(at, end)[cut - at] == boundary);
            assert(ends_name(name[cut - at]));
        }
        if end <= cut {
            assert(front.subrange(at, end) =~= whole.subrange(at, end));
            assert(occurs_at(front, name, at));
            assert(name_at(front, name, at));
        } else {
            let back = at - cut - 1;
            assert(behind.subrange(back, back + name.len()) =~= whole.subrange(at, end));
            assert(occurs_at(behind, name, back));
            if back > 0 {
                assert(behind[back - 1] == whole[at - 1]);
            }
            assert(name_at(behind, name, back));
        }
    }
}

/// The place of a check in the order of checks.
pub open spec fn turn(check: RuntimeCheck) -> int {
    match check {
        RuntimeCheck::FfmpegVersion => 1,
        RuntimeCheck::FfprobeVersion => 2,
        RuntimeCheck::Encoders => 3,
        RuntimeCheck::Filters => 4,
        RuntimeCheck::Muxers => 5,
    }
}

/// All five checks take their turn. Only the version of the prober is asked of it.
pub proof fn every_check_takes_its_turn(check: RuntimeCheck)
    ensures
        check.spec_next() is None <==> check is Muxers,
        check.spec_next() matches Some(next) ==> turn(next) == turn(check) + 1,
        check.spec_tool() is Ffprobe <==> check is FfprobeVersion,
        check.spec_tool() is Ffmpeg <==> !(check is FfprobeVersion),
        check is FfmpegVersion || check is FfprobeVersion ==> check.spec_argument() == "-version"@,
        check is Encoders ==> check.spec_argument() == "-encoders"@,
        check is Filters ==> check.spec_argument() == "-filters"@,
        check is Muxers ==> check.spec_argument() == "-muxers"@,
{
}

/// A runtime is objected to exactly where it is not free, or lacks something required in the
/// listing that is asked for.
pub proof fn objections_have_a_cause(output: Seq<char>)
    ensures
        RuntimeCheck::FfmpegVersion.objection(output) is Some <==> contains_text(
            output,
            "--enable-nonfree"@,
        ),
        RuntimeCheck::FfprobeVersion.objection(output) is None,
        RuntimeCheck::Encoders.objection(output) is None <==> missing_names(
            output,
            spec_required_command_encoders(),
        ).len() == 0,
        RuntimeCheck::Filters.objection(output) is None <==> missing_names(
            output,
            spec_required_command_filters(),
        ).len() == 0,
        RuntimeCheck::Muxers.objection(output) is None <==> missing_names(
            output,
            spec_required_command_muxers(),
        ).len() == 0,
{
}

/// The place of a level among the levels, from the most silent on.
pub open spec fn level_name(place: int) -> Seq<char> {
    if place == 0 {
        "panic"@
    } else if place == 1 {
        "fatal"@
    } else if place == 2 {
        "error"@
    } else if place == 3 {
        "warning"@
    } else if place == 4 {
        "info"@
    } else if place == 5 {
        "verbose"@
    } else if place == 6 {
        "debug"@
    } else if place == 7 {
        "trace"@
    } else {
        "quiet"@
    }
}

/// Levels of logging are eight apart, and nothing else is a level.
pub proof fn levels_are_eight_apart(setting: Seq<char>, place: int)
    requires
        -1 <= place <= 7,
    ensures
        log_level_of(level_name(place)) == Some((8 * place) as i32),
        log_level_of(setting) is Some ==> exists|k: int|
            -1 <= k <= 7 && setting == #[trigger] level_name(k),
{
    reveal_strlit("quiet");
    reveal_strlit("panic");
    reveal_strlit("fatal");
    reveal_strlit("error");
    reveal_strlit("warning");
    reveal_strlit("info");
    reveal_strlit("verbose");
    reveal_strlit("debug");
    reveal_strlit("trace");
    assert("quiet"@.len() == 5);
    assert("panic"@.len() == 5);
    assert("fatal"@.len() == 5);
    assert("error"@.len() == 5);
    assert("warning"@.len() == 7);
    assert("info"@.len() == 4);
    assert("verbose"@.len() == 7);
    assert("debug"@.len() == 5);
    assert("trace"@.len() == 5);
    assert("quiet"@[0] != "panic"@[0]);
    assert("quiet"@[0] != "fatal"@[0]);
    assert("quiet"@[0] != "error"@[0]);
    assert("quiet"@[0] != "debug"@[0]);
    assert("quiet"@[0] != "trace"@[0]);
    assert("panic"@[0] != "fatal"@[0]);
    assert("panic"@[0] != "error"@[0]);
    assert("panic"@[0] != "debug"@[0]);
    assert("panic"@[0] != "trace"@[0]);
    assert("fatal"@[0] != "error"@[0]);
    assert("fatal"@[0] != "debug"@[0]);
    assert("fatal"@[0] != "trace"@[0]);
    assert("error"@[0] != "debug"@[0]);
    assert("error"@[0] != "trace"@[0]);
    assert("warning"@[0] != "verbose"@[0]);
    assert("debug"@[0] != "trace"@[0]);
    assert(level_name(-1) == "quiet"@);
    assert(level_name(0) == "panic"@);
    assert(level_name(1) == "fatal"@);
    assert(level_name(2) == "error"@);
    assert(level_name(3) == "warning"@);
    assert(level_name(4) == "info"@);
    assert(level_name(5) == "verbose"@);
    assert(level_name(6) == "debug"@);
    assert(level_name(7) == "trace"@);
}

/// A decoder is missing exactly where it was not found, and is told by its own label.
pub proof fn missing_decoders_are_told(found: Seq<bool>, i: int)
    requires
        found.len() <= spec_required_decoder_labels().len(),
        0 <= i < found.len(),
    ensures
        !found[i] ==> missing_labels(found).contains(spec_required_decoder_labels()[i]),
        missing_labels(found).len() == 0 <==> forall|k: int|
            0 <= k < found.len() ==> #[trigger] found[k],
    decreases found.len(),
{
    let head = found.drop_last();
    let last = found.len() - 1;
    let all = missing_labels(found);
    if head.len() > 0 {
        missing_decoders_are_told(
            head,
            if i < last {
                i
            } else {
                0
            },
        );
        if (forall|k: int| 0 <= k < head.len() ==> #[trigger] head[k]) && found.last() {
            assert forall|k: int| 0 <= k < found.len() implies #[trigger] found[k] by {
                if k < last {
                    assert(head[k]);
                }
            }
        }
        if forall|k: int| 0 <= k < found.len() ==> #[trigger] found[k] {
            assert forall|k: int| 0 <= k < head.len() implies #[trigger] head[k] by {
                assert(found[k]);
            }
        }
    }
    assert(found.last() == found[last]);
    if head.len() == 0 {
        assert(missing_labels(head).len() == 0);
        assert(found[0] ==> forall|k: int| 0 <= k < found.len() ==> #[trigger] found[k]);
    }
    if all.len() == 0 {
        assert forall|k: int| 0 <= k < found.len() implies #[trigger] found[k] by {
            if k < last {
                assert(head[k]);
            }
        }
    }
    if !found[i] {
        if i == last {
            assert(all[all.len() - 1] == spec_required_decoder_labels()[i]);
        } else {
            assert(head[i] == found[i]);
            let before = missing_labels(head);
            let k = choose|k: int|
                0 <= k < before.len() && before[k] == spec_required_decoder_labels()[i];
            assert(all[k] == before[k]);
        }
    }
}

} // verus!
