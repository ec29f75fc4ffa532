//! Which command-line tools are used: those beside the application, or else, in
//! development, those of the search path.

use crate::path::{command_path, MediaPath};
use vstd::prelude::*;
use vstd::string::*;

verus! {

/// The command-line tools.
#[derive(Debug, Clone, Copy, PartialEq, Eq, Structural)]
pub enum FfmpegTool {
    Ffmpeg,
    Ffprobe,
}

/// Where a tool was found.
#[derive(Debug, Clone, Copy, PartialEq, Eq, Structural)]
pub enum FfmpegToolSource {
    /// Beside the application.
    Packaged,
    SearchPath,
}

/// A tool that was found.
#[derive(Debug, Clone, PartialEq, Eq)]
pub struct ResolvedFfmpegTool {
    pub path: MediaPath,
    pub source: FfmpegToolSource,
}

impl FfmpegTool {
    /// The name of the command.
    pub open spec fn spec_command_name(self) -> Seq<char> {
        match self {
            FfmpegTool::Ffmpeg => "ffmpeg"@,
            FfmpegTool::Ffprobe => "ffprobe"@,
        }
    }

    /// The name of the command.
    pub fn command_name(self) -> (name: &'static str)
        ensures
            name@ == self.spec_command_name(),
    {
        match self {
            FfmpegTool::Ffmpeg => "ffmpeg",
            FfmpegTool::Ffprobe => "ffprobe",
        }
    }

    /// The name of the command as a path.
    pub fn command_path(self) -> (path: MediaPath)
        ensures
            path@ == command_path(self.spec_command_name()),
    {
        proof {
            reveal_strlit("ffmpeg");
            reveal_strlit("ffprobe");
        }
        let bytes: Vec<u8> = match self {
            FfmpegTool::Ffmpeg => vec![0x66, 0x66, 0x6d, 0x70, 0x65, 0x67],
            FfmpegTool::Ffprobe => vec![0x66, 0x66, 0x70, 0x72, 0x6f, 0x62, 0x65],
        };
        assert(bytes@ =~= command_path(self.spec_command_name()).bytes);
        MediaPath::from_component(bytes)
    }

    /// The name of the file beside the application. Executables end in `suffix`.
    pub fn packaged_file_name(self, suffix: &str) -> (name: String)
        ensures
            name@ == self.spec_command_name() + suffix@,
    {
        let mut name = self.command_name().to_owned();
        name.append(suffix);
        name
    }
}

/// A file beside the application that a tool could be.
#[derive(Debug, PartialEq, Eq)]
pub struct PackagedCandidate {
    pub path: MediaPath,
    pub is_file: bool,
}

/// The tool to use: the file beside the application where there is one, or else the
/// command of that name.
pub fn resolve_ffmpeg_tool_from(candidate: Option<PackagedCandidate>, tool: FfmpegTool) -> (r:
    ResolvedFfmpegTool)
    ensures
        match candidate {
            Some(file) => if file.is_file {
                r.path == file.path && r.source is Packaged
            } else {
                r.path@ == command_path(tool.spec_command_name()) && r.source is SearchPath
            },
            None => r.path@ == command_path(tool.spec_command_name()) && r.source is SearchPath,
        },
        r.source is Packaged <==> candidate is Some && candidate->0.is_file,
        r.source is Packaged ==> r.path == candidate->0.path,
{
    match candidate {
        Some(file) => {
            if file.is_file {
                return ResolvedFfmpegTool { path: file.path, source: FfmpegToolSource::Packaged };
            }
        },
        None => {},
    }
    ResolvedFfmpegTool {
        path: tool.command_path(),
        source: FfmpegToolSource::SearchPath,
    }
}

/// Which command is run.
#[derive(Debug, PartialEq, Eq)]
pub enum CommandChoice<C> {
    /// The one of an installed toolchain.
    Qualified(C),
    /// The tool that resolution finds.
    Resolved(ResolvedFfmpegTool),
}

/// The command to run. An installed toolchain decides alone: its command is used as it
/// is, and its refusal is final. Only without one a tool is resolved.
pub fn resolve_command<C, E>(
    qualified: Result<Option<C>, E>,
    candidate: Option<PackagedCandidate>,
    tool: FfmpegTool,
) -> (r: Result<CommandChoice<C>, E>)
    ensures
        match qualified {
            Err(error) => r == Err::<CommandChoice<C>, E>(error),
            Ok(Some(command)) => r == Ok::<CommandChoice<C>, E>(CommandChoice::Qualified(command)),
            Ok(None) => r matches Ok(CommandChoice::Resolved(found)) && (match candidate {
                Some(file) => if file.is_file {
                    found.path == file.path && found.source is Packaged
                } else {
                    found.path@ == command_path(tool.spec_command_name())
                        && found.source is SearchPath
                },
                None => found.path@ == command_path(tool.spec_command_name())
                    && found.source is SearchPath,
            }),
        },
        r is Err <==> qualified is Err,
        r matches Ok(CommandChoice::Qualified(command)) ==> qualified == Ok::<Option<C>, E>(
            Some(command),
        ),
        qualified matches Ok(Some(_)) ==> r is Ok && r->Ok_0 is Qualified,
{
    match qualified {
        Err(error) => Err(error),
        Ok(Some(command)) => Ok(CommandChoice::Qualified(command)),
        Ok(None) => Ok(CommandChoice::Resolved(resolve_ffmpeg_tool_from(candidate, tool))),
    }
}

/// An error as far as its causes matter: it may be a refusal of a command itself, carry
/// another error within an I/O error, and have a source.
#[derive(Debug)]
pub struct ErrorNode {
    pub refusal: bool,
    pub inner: Option<Box<ErrorNode>>,
    pub source: Option<Box<ErrorNode>>,
}

/// Whether a refusal of a command is anywhere among the causes of an error.
pub open spec fn has_refusal(error: ErrorNode) -> bool
    decreases error,
{
    ||| error.refusal
    ||| match error.inner {
        Some(inner) => has_refusal(*inner),
        None => false,
    }
    ||| match error.source {
        Some(source) => has_refusal(*source),
        None => false,
    }
}

/// Why a command may not be run at all.
#[derive(Debug, PartialEq, Eq)]
pub enum FfmpegCommandError {
    /// An installed toolchain does not allow it. No other tool takes its place.
    QualifiedToolchain {
        detail: String,
    },
}

/// A failure of the application, as far as its causes matter.
#[derive(Debug)]
pub enum DomainFailure {
    /// An error of another kind, with its chain of causes from the outside in.
    Other(Vec<ErrorNode>),
    Known(ErrorNode),
}

impl DomainFailure {
    /// Whether a failure comes from a refusal of a command.
    pub open spec fn from_refusal(self) -> bool {
        match self {
            DomainFailure::Other(chain) => any_refusal(chain@),
            DomainFailure::Known(error) => has_refusal(error),
        }
    }
}

/// Whether one of the given errors comes from a refusal of a command.
pub open spec fn any_refusal(errors: Seq<ErrorNode>) -> bool {
    exists|i: int| 0 <= i < errors.len() && has_refusal(#[trigger] errors[i])
}

impl FfmpegCommandError {
    /// The text of this error.
    pub fn message(&self) -> (text: String)
        ensures
            match *self {
                FfmpegCommandError::QualifiedToolchain { detail } => text@
                    == "qualified FFmpeg command admission rejected: "@ + detail@,
            },
    {
        match self {
            FfmpegCommandError::QualifiedToolchain { detail } => {
                let mut text = "qualified FFmpeg command admission rejected: ".to_owned();
                text.append(detail.as_str());
                text
            },
        }
    }

    /// Whether a refusal of a command is anywhere among the causes of an error.
    pub fn is_error_cause(error: &ErrorNode) -> (r: bool)
        ensures
            r == has_refusal(*error),
        decreases *error,
    {
        if error.refusal {
            return true;
        }
        match &error.inner {
            Some(inner) => {
                if FfmpegCommandError::is_error_cause(inner) {
                    return true;
                }
            },
            None => {},
        }
        match &error.source {
            Some(source) => FfmpegCommandError::is_error_cause(source),
            None => false,
        }
    }

    /// Whether a failure of the application comes from a refusal of a command.
    pub fn is_cause_of(failure: &DomainFailure) -> (r: bool)
        ensures
            r == failure.from_refusal(),
    {
        match failure {
            DomainFailure::Known(error) => FfmpegCommandError::is_error_cause(error),
            DomainFailure::Other(chain) => {
                let len: usize = chain.len();
                let mut i: usize = 0;
                while i < len
                    invariant
                        *failure == DomainFailure::Other(*chain),
                        i <= len == chain@.len(),
                        forall|j: int| 0 <= j < i ==> !has_refusal(#[trigger] chain@[j]),
                    decreases len - i,
                {
                    if FfmpegCommandError::is_error_cause(&chain[i]) {
                        assert(any_refusal(chain@));
                        return true;
                    }
                    i += 1;
                }
                false
            },
        }
    }
}

/// Tools are named as their commands are.
pub proof fn tools_are_commands(tool: FfmpegTool)
    ensures
        tool is Ffmpeg ==> tool.spec_command_name() == "ffmpeg"@,
        tool is Ffprobe ==> tool.spec_command_name() == "ffprobe"@,
{
}

/// No wrapping hides a refusal, and none makes one up: an error that carries another, or has
/// it as its source, comes from a refusal where that one does, or where it is one itself.
pub proof fn wrapping_hides_no_refusal(error: ErrorNode, other: ErrorNode, refusal: bool)
    ensures
        has_refusal(ErrorNode { refusal, inner: Some(Box::new(error)), source: None }) == (refusal
            || has_refusal(error)),
        has_refusal(ErrorNode { refusal, inner: None, source: Some(Box::new(error)) }) == (refusal
            || has_refusal(error)),
        has_refusal(
            ErrorNode {
                refusal,
                inner: Some(Box::new(other)),
                source: Some(Box::new(error)),
            },
        ) == (refusal || has_refusal(error) || has_refusal(other)),
        has_refusal(ErrorNode { refusal, inner: None, source: None }) == refusal,
{
    reveal_with_fuel(has_refusal, 2);
}

/// A chain of causes comes from a refusal where one of them does.
pub proof fn chains_hide_no_refusal(front: Seq<ErrorNode>, behind: Seq<ErrorNode>, error: ErrorNode)
    ensures
        any_refusal(front + behind) == (any_refusal(front) || any_refusal(behind)),
        any_refusal(seq![error]) == has_refusal(error),
        !any_refusal(seq![]),
        DomainFailure::Known(error).from_refusal() == has_refusal(error),
{
    let both = front + behind;
    if any_refusal(front) {
        let i = choose|i: int| 0 <= i < front.len() && has_refusal(#[trigger] front[i]);
        assert(both[i] == front[i]);
    }
    if any_refusal(behind) {
        let i = choose|i: int| 0 <= i < behind.len() && has_refusal(#[trigger] behind[i]);
        assert(both[front.len() + i] == behind[i]);
    }
    if any_refusal(both) {
        let i = choose|i: int| 0 <= i < both.len() && has_refusal(#[trigger] both[i]);
        if i < front.len() {
            assert(front[i] == both[i]);
        } else {
            assert(behind[i - front.len()] == both[i]);
        }
    }
    assert(seq![error][0] == error);
}

} // verus!
