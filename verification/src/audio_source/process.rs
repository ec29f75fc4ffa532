//! The process behind a decoder session: how it is asked for, how its parts come into
//! being, and who owns them where that fails.

use crate::audio_source::fault::{DecodeFault, FaultView};
use crate::audio_source::mapping::{ffmpeg_stream_map, identity_pan, identity_pan_filter};
use crate::audio_source::slots::SessionKey;
use crate::text::{decimal, push_decimal};
use std::collections::VecDeque;
use vstd::prelude::*;
use vstd::string::*;

verus! {

/// Seconds that are decoded and dropped before an exact position.
pub const EXACT_SEEK_PREROLL_SECONDS: i64 = 10;

/// The frame that a seek aims at.
pub open spec fn aimed_frame(start_frame: i64) -> int {
    if start_frame < 0 {
        0
    } else {
        start_frame as int
    }
}

/// Frames of the preroll in a rate.
pub open spec fn preroll_frames(sample_rate: u32) -> int {
    if sample_rate == 0 {
        10
    } else {
        sample_rate * 10
    }
}

/// The coarse start of the input: the preroll before the frame that is aimed at, or the
/// beginning.
pub open spec fn input_start(start_frame: i64, sample_rate: u32) -> int {
    if aimed_frame(start_frame) < preroll_frames(sample_rate) {
        0
    } else {
        aimed_frame(start_frame) - preroll_frames(sample_rate)
    }
}

/// Where a window begins, as positions for the decoder: the coarse start of the input,
/// and the frames to drop from there. Together they are the frame that is aimed at.
pub fn exact_seek_partition(start_frame: i64, sample_rate: u32) -> (r: (i64, i64))
    ensures
        r.0 == input_start(start_frame, sample_rate),
        r.0 + r.1 == aimed_frame(start_frame),
        0 <= r.1 <= preroll_frames(sample_rate),
        start_frame >= 0 ==> r.0 + r.1 == start_frame,
        start_frame < 0 ==> r.0 == 0 && r.1 == 0,
{
    let start: i64 = if start_frame < 0 {
        0
    } else {
        start_frame
    };
    let rate: i64 = if sample_rate == 0 {
        1
    } else {
        sample_rate as i64
    };
    let preroll: i64 = rate * EXACT_SEEK_PREROLL_SECONDS;
    let input: i64 = if start < preroll {
        0
    } else {
        start - preroll
    };
    (input, start - input)
}

/// The last bytes of a text, at most as many as there is room for.
pub open spec fn suffix(bytes: Seq<u8>, room: nat) -> Seq<u8> {
    if bytes.len() <= room {
        bytes
    } else {
        bytes.skip(bytes.len() - room)
    }
}

/// How bytes are cut into pieces does not matter: the tail after two pieces is that after
/// both together.
pub proof fn tails_ignore_pieces(before: Seq<u8>, first: Seq<u8>, second: Seq<u8>, room: nat)
    ensures
        suffix(suffix(before + first, room) + second, room) == suffix(
            before + (first + second),
            room,
        ),
{
    let held = suffix(before + first, room) + second;
    let whole = before + (first + second);
    assert(suffix(held, room).len() == suffix(whole, room).len());
    assert(suffix(held, room) =~= suffix(whole, room));
}

/// Appends bytes to a tail that keeps the latest bytes.
pub fn append_bounded_tail(tail: &mut VecDeque<u8>, bytes: &[u8], capacity: usize)
    ensures
        final(tail)@ == suffix(old(tail)@ + bytes@, capacity as nat),
        final(tail)@.len() <= capacity,
{
    let ghost before = tail@;
    let ghost whole = before + bytes@;
    if capacity == 0 {
        tail.clear();
        assert(tail@ =~= suffix(whole, 0));
        return;
    }
    let len: usize = bytes.len();
    let skip: usize = len.saturating_sub(capacity);
    let mut i: usize = skip;
    while i < len
        invariant
            skip <= i <= len == bytes@.len(),
            tail@ == before + bytes@.subrange(skip as int, i as int),
        decreases len - i,
    {
        tail.push_back(bytes[i]);
        i += 1;
        assert(tail@ =~= before + bytes@.subrange(skip as int, i as int));
    }
    let ghost fed = tail@;
    let ghost mut dropped: int = 0;
    assert(tail@ =~= fed.skip(0));
    while tail.len() > capacity
        invariant
            0 <= dropped <= fed.len(),
            tail@ == fed.skip(dropped),
            fed.len() - dropped == tail@.len(),
            dropped > 0 ==> tail@.len() >= capacity,
        decreases tail@.len(),
    {
        tail.pop_front();
        proof {
            dropped = dropped + 1;
        }
        assert(tail@ =~= fed.skip(dropped));
    }
    assert(fed =~= before + bytes@.skip(skip as int));
    if skip > 0 {
        assert(tail@ =~= suffix(whole, capacity as nat));
    } else {
        assert(fed =~= whole);
        assert(tail@ =~= suffix(whole, capacity as nat));
    }
}

/// One argument of the decoder process.
#[derive(Debug, PartialEq, Eq)]
pub enum DecoderArgument {
    Text(String),
    /// The time of a frame in the session's rate.
    Timestamp { frame: i64 },
    /// The path of the source.
    Source,
}

/// Mathematical reading of an argument.
pub enum ArgumentView {
    Text(Seq<char>),
    Timestamp(int),
    Source,
}

impl View for DecoderArgument {
    type V = ArgumentView;

    open spec fn view(&self) -> ArgumentView {
        match *self {
            DecoderArgument::Text(text) => ArgumentView::Text(text@),
            DecoderArgument::Timestamp { frame } => ArgumentView::Timestamp(frame as int),
            DecoderArgument::Source => ArgumentView::Source,
        }
    }
}

/// Mathematical reading of an argument list.
pub open spec fn arguments_view(arguments: Seq<DecoderArgument>) -> Seq<ArgumentView> {
    arguments.map_values(|argument: DecoderArgument| argument@)
}

/// A seek in front of what follows, where there is anything to seek.
pub open spec fn seek_arguments(frames: int) -> Seq<ArgumentView> {
    if frames > 0 {
        seq![ArgumentView::Text("-ss"@), ArgumentView::Timestamp(frames)]
    } else {
        seq![]
    }
}

/// What a decoder process reads: quietly, after a coarse seek, the source, and then the
/// exact rest of the seek.
pub open spec fn input_arguments(input_start: int, exact_trim: int) -> Seq<ArgumentView> {
    seq![
        ArgumentView::Text("-v"@),
        ArgumentView::Text("error"@),
        ArgumentView::Text("-nostdin"@),
    ] + seek_arguments(input_start) + seq![ArgumentView::Text("-i"@), ArgumentView::Source]
        + seek_arguments(exact_trim)
}

/// What a decoder process writes: one stream, no picture, text or data, as interleaved
/// 32-bit samples.
pub open spec fn output_arguments(stream_index: nat, channels: nat, sample_rate: nat) -> Seq<
    ArgumentView,
> {
    seq![
        ArgumentView::Text("-map"@),
        ArgumentView::Text("0:"@ + decimal(stream_index)),
        ArgumentView::Text("-vn"@),
        ArgumentView::Text("-sn"@),
        ArgumentView::Text("-dn"@),
        ArgumentView::Text("-f"@),
        ArgumentView::Text("f32le"@),
        ArgumentView::Text("-acodec"@),
        ArgumentView::Text("pcm_f32le"@),
        ArgumentView::Text("-filter:a"@),
        ArgumentView::Text(identity_pan(channels)),
        ArgumentView::Text("-ac"@),
        ArgumentView::Text(decimal(channels)),
        ArgumentView::Text("-ar"@),
        ArgumentView::Text(decimal(sample_rate)),
        ArgumentView::Text("pipe:1"@),
    ]
}

fn push_text(arguments: &mut Vec<DecoderArgument>, text: &str)
    ensures
        arguments_view(final(arguments)@) == arguments_view(old(arguments)@).push(
            ArgumentView::Text(text@),
        ),
{
    arguments.push(DecoderArgument::Text(text.to_owned()));
    assert(arguments_view(arguments@) =~= arguments_view(old(arguments)@).push(
        ArgumentView::Text(text@),
    ));
}

fn push_owned(arguments: &mut Vec<DecoderArgument>, text: String)
    ensures
        arguments_view(final(arguments)@) == arguments_view(old(arguments)@).push(
            ArgumentView::Text(text@),
        ),
{
    arguments.push(DecoderArgument::Text(text));
    assert(arguments_view(arguments@) =~= arguments_view(old(arguments)@).push(
        ArgumentView::Text(text@),
    ));
}

fn push_seek(arguments: &mut Vec<DecoderArgument>, frames: i64)
    ensures
        arguments_view(final(arguments)@) == arguments_view(old(arguments)@) + seek_arguments(
            frames as int,
        ),
{
    if frames > 0 {
        push_text(arguments, "-ss");
        let ghost before = arguments_view(arguments@);
        arguments.push(DecoderArgument::Timestamp { frame: frames });
        assert(arguments_view(arguments@) =~= before.push(ArgumentView::Timestamp(frames as int)));
    }
    assert(arguments_view(arguments@) =~= arguments_view(old(arguments)@) + seek_arguments(
        frames as int,
    ));
}

fn input_side(input: i64, trim: i64) -> (arguments: Vec<DecoderArgument>)
    ensures
        arguments_view(arguments@) == input_arguments(input as int, trim as int),
{
    let mut arguments: Vec<DecoderArgument> = Vec::new();
    push_text(&mut arguments, "-v");
    push_text(&mut arguments, "error");
    push_text(&mut arguments, "-nostdin");
    push_seek(&mut arguments, input);
    push_text(&mut arguments, "-i");
    let ghost before = arguments_view(arguments@);
    arguments.push(DecoderArgument::Source);
    assert(arguments_view(arguments@) =~= before.push(ArgumentView::Source));
    push_seek(&mut arguments, trim);
    assert(arguments_view(arguments@) =~= input_arguments(input as int, trim as int));
    arguments
}

fn output_side(key: &SessionKey) -> (arguments: Vec<DecoderArgument>)
    ensures
        arguments_view(arguments@) == output_arguments(
            key.source.stream_index as nat,
            key.channel_layout.spec_channel_count(),
            key.sample_rate as nat,
        ),
{
    let mut channels = String::new();
    push_decimal(&mut channels, key.channel_layout.channel_count() as u64);
    assert(channels@ =~= decimal(key.channel_layout.spec_channel_count()));
    let mut rate = String::new();
    push_decimal(&mut rate, key.sample_rate as u64);
    assert(rate@ =~= decimal(key.sample_rate as nat));
    let mut arguments: Vec<DecoderArgument> = Vec::new();
    push_text(&mut arguments, "-map");
    push_owned(&mut arguments, ffmpeg_stream_map(key.source.stream_index));
    push_text(&mut arguments, "-vn");
    push_text(&mut arguments, "-sn");
    push_text(&mut arguments, "-dn");
    push_text(&mut arguments, "-f");
    push_text(&mut arguments, "f32le");
    push_text(&mut arguments, "-acodec");
    push_text(&mut arguments, "pcm_f32le");
    push_text(&mut arguments, "-filter:a");
    push_owned(&mut arguments, identity_pan_filter(&key.channel_layout));
    push_text(&mut arguments, "-ac");
    push_owned(&mut arguments, channels);
    push_text(&mut arguments, "-ar");
    push_owned(&mut arguments, rate);
    push_text(&mut arguments, "pipe:1");
    assert(arguments_view(arguments@) =~= output_arguments(
        key.source.stream_index as nat,
        key.channel_layout.spec_channel_count(),
        key.sample_rate as nat,
    ));
    arguments
}

/// The arguments of the process that decodes a source from a frame on.
pub fn spawn_arguments(key: &SessionKey, start_frame: i64) -> (arguments: Vec<DecoderArgument>)
    ensures
        arguments_view(arguments@) == input_arguments(
            input_start(start_frame, key.sample_rate),
            aimed_frame(start_frame) - input_start(start_frame, key.sample_rate),
        ) + output_arguments(
            key.source.stream_index as nat,
            key.channel_layout.spec_channel_count(),
            key.sample_rate as nat,
        ),
        sought_frames(arguments_view(arguments@)) == (if start_frame < 0 {
            0
        } else {
            start_frame as int
        }),
{
    let (input, trim) = exact_seek_partition(start_frame, key.sample_rate);
    let mut arguments = input_side(input, trim);
    let mut output = output_side(key);
    let ghost head = arguments@;
    let ghost tail = output@;
    arguments.append(&mut output);
    assert(arguments_view(head + tail) =~= arguments_view(head) + arguments_view(tail));
    proof {
        lemma_sought_joined(arguments_view(head), arguments_view(tail));
        lemma_sought_input(input as int, trim as int);
        lemma_nothing_sought(arguments_view(tail));
    }
    arguments
}

/// The parts of a process that exist before its session does.
#[derive(Debug, Clone, Copy, PartialEq, Eq, Structural)]
pub struct PartialInventory {
    pub child: bool,
    /// Pipes that no pump reads yet.
    pub stdout: bool,
    pub stderr: bool,
    /// Pumps, with the channels that they feed.
    pub stdout_pump: bool,
    pub stderr_pump: bool,
    pub permit: bool,
}

/// Where the making of a session stands.
#[derive(Debug, Clone, Copy, PartialEq, Eq, Structural)]
pub enum SpawnPhase {
    /// The command is looked up.
    Commanding,
    /// The last look for cancellation before a process exists.
    BeforeSpawn,
    /// The process is created.
    Spawning,
    /// A look for cancellation after that. The process has these pipes.
    AfterSpawn { stdout: bool, stderr: bool },
    /// The pump of its output is started.
    StartingStdoutPump,
    /// A look for cancellation between the pumps.
    BetweenPumps,
    /// The pump of its errors is started.
    StartingStderrPump,
}

/// What happened to the making of a session.
#[derive(Debug, PartialEq, Eq)]
pub enum SpawnEvent {
    CommandReady,
    /// The command was refused.
    CommandRefused(String),
    /// Whether the reader was canceled or the decoder shuts down.
    Looked { canceled: bool },
    Spawned { stdout: bool, stderr: bool },
    /// The system refused to create the process.
    SpawnRefused(String),
    PumpStarted,
    /// The system refused to start a pump.
    PumpRefused(String),
}

/// What comes of it.
#[derive(Debug, PartialEq, Eq)]
pub enum SpawnStep {
    Continue(SpawnPhase),
    /// All parts exist: they are a session.
    Complete,
    /// The making failed. Parts that exist go to teardown and keep the permit; without a
    /// process the permit is released at once.
    Failed { fault: DecodeFault, owner: Option<PartialInventory>, permit_released: bool },
    /// The event does not belong here.
    NotDue,
}

/// Text of a refusal by the system.
pub open spec fn refusal_text(what: Seq<char>, error: Seq<char>) -> Seq<char> {
    what + error
}

/// A process with its pipes, before any pump.
pub open spec fn bare_process(stdout: bool, stderr: bool) -> PartialInventory {
    PartialInventory {
        child: true,
        stdout,
        stderr,
        stdout_pump: false,
        stderr_pump: false,
        permit: true,
    }
}

/// Mathematical reading of a step.
pub enum SpawnOutcome {
    Continue(SpawnPhase),
    Complete,
    Failed { fault: FaultView, owner: Option<PartialInventory>, permit_released: bool },
    NotDue,
}

/// Mathematical reading of a step.
pub open spec fn step_view(step: SpawnStep) -> SpawnOutcome {
    match step {
        SpawnStep::Continue(phase) => SpawnOutcome::Continue(phase),
        SpawnStep::Complete => SpawnOutcome::Complete,
        SpawnStep::Failed { fault, owner, permit_released } => SpawnOutcome::Failed {
            fault: fault@,
            owner,
            permit_released,
        },
        SpawnStep::NotDue => SpawnOutcome::NotDue,
    }
}

/// A failure before a process exists: nothing is left of it, and the permit is free.
pub open spec fn failed_early(fault: FaultView) -> SpawnOutcome {
    SpawnOutcome::Failed { fault, owner: None, permit_released: true }
}

/// A failure that leaves a process behind: its parts keep the permit.
pub open spec fn failed_late(fault: FaultView, parts: PartialInventory) -> SpawnOutcome {
    SpawnOutcome::Failed { fault, owner: Some(parts), permit_released: false }
}

/// What comes of an event while a session is made.
pub open spec fn spawn_outcome(phase: SpawnPhase, event: SpawnEvent) -> SpawnOutcome {
    match (phase, event) {
        (SpawnPhase::Commanding, SpawnEvent::CommandReady) => SpawnOutcome::Continue(
            SpawnPhase::BeforeSpawn,
        ),
        (SpawnPhase::Commanding, SpawnEvent::CommandRefused(error)) => failed_early(
            FaultView::CommandRefused(error@),
        ),
        (SpawnPhase::BeforeSpawn, SpawnEvent::Looked { canceled }) => if canceled {
            failed_early(FaultView::Canceled)
        } else {
            SpawnOutcome::Continue(SpawnPhase::Spawning)
        },
        (SpawnPhase::Spawning, SpawnEvent::Spawned { stdout, stderr }) => SpawnOutcome::Continue(
            SpawnPhase::AfterSpawn { stdout, stderr },
        ),
        (SpawnPhase::Spawning, SpawnEvent::SpawnRefused(error)) => failed_early(
            FaultView::Reported(refusal_text("启动持久音频解码 Session 失败: "@, error@)),
        ),
        (SpawnPhase::AfterSpawn { stdout, stderr }, SpawnEvent::Looked { canceled }) => if canceled {
            failed_late(FaultView::Canceled, bare_process(stdout, stderr))
        } else if !stdout {
            failed_late(FaultView::StdoutMissing, bare_process(stdout, stderr))
        } else if !stderr {
            failed_late(FaultView::StderrMissing, bare_process(stdout, stderr))
        } else {
            SpawnOutcome::Continue(SpawnPhase::StartingStdoutPump)
        },
        (SpawnPhase::StartingStdoutPump, SpawnEvent::PumpStarted) => SpawnOutcome::Continue(
            SpawnPhase::BetweenPumps,
        ),
        (SpawnPhase::StartingStdoutPump, SpawnEvent::PumpRefused(error)) => failed_late(
            FaultView::Reported(refusal_text("启动音频 stdout pump 失败: "@, error@)),
            bare_process(false, true),
        ),
        (SpawnPhase::BetweenPumps, SpawnEvent::Looked { canceled }) => if canceled {
            failed_late(
                FaultView::Canceled,
                PartialInventory { stdout_pump: true, ..bare_process(false, true) },
            )
        } else {
            SpawnOutcome::Continue(SpawnPhase::StartingStderrPump)
        },
        (SpawnPhase::StartingStderrPump, SpawnEvent::PumpStarted) => SpawnOutcome::Complete,
        (SpawnPhase::StartingStderrPump, SpawnEvent::PumpRefused(error)) => failed_late(
            FaultView::Reported(refusal_text("启动音频 stderr pump 失败: "@, error@)),
            PartialInventory { stdout_pump: true, ..bare_process(false, false) },
        ),
        _ => SpawnOutcome::NotDue,
    }
}

fn refused(what: &str, error: &String) -> (fault: DecodeFault)
    ensures
        fault is Reported,
        fault->Reported_0@ == refusal_text(what@, error@),
{
    let mut text = what.to_owned();
    text.append(error.as_str());
    DecodeFault::Reported(text)
}

fn early(fault: DecodeFault) -> (step: SpawnStep)
    ensures
        step_view(step) == failed_early(fault@),
{
    SpawnStep::Failed { fault, owner: None, permit_released: true }
}

fn late(fault: DecodeFault, parts: PartialInventory) -> (step: SpawnStep)
    ensures
        step_view(step) == failed_late(fault@, parts),
{
    SpawnStep::Failed { fault, owner: Some(parts), permit_released: false }
}

/// Takes the making of a session one step further. A failure releases the permit exactly
/// where it leaves no owner.
pub fn advance_spawn(phase: SpawnPhase, event: &SpawnEvent) -> (step: SpawnStep)
    ensures
        step_view(step) == spawn_outcome(phase, *event),
        step matches SpawnStep::Failed { owner, permit_released, .. } ==> permit_released
            == owner is None,
{
    match (phase, event) {
        (SpawnPhase::Commanding, SpawnEvent::CommandReady) => SpawnStep::Continue(
            SpawnPhase::BeforeSpawn,
        ),
        (SpawnPhase::Commanding, SpawnEvent::CommandRefused(error)) => early(
            DecodeFault::CommandRefused(error.clone()),
        ),
        (SpawnPhase::BeforeSpawn, SpawnEvent::Looked { canceled }) => {
            if *canceled {
                early(DecodeFault::Canceled)
            } else {
                SpawnStep::Continue(SpawnPhase::Spawning)
            }
        },
        (SpawnPhase::Spawning, SpawnEvent::Spawned { stdout, stderr }) => SpawnStep::Continue(
            SpawnPhase::AfterSpawn { stdout: *stdout, stderr: *stderr },
        ),
        (SpawnPhase::Spawning, SpawnEvent::SpawnRefused(error)) => early(
            refused("启动持久音频解码 Session 失败: ", error),
        ),
        (SpawnPhase::AfterSpawn { stdout, stderr }, SpawnEvent::Looked { canceled }) => {
            let parts = PartialInventory {
                child: true,
                stdout,
                stderr,
                stdout_pump: false,
                stderr_pump: false,
                permit: true,
            };
            if *canceled {
                late(DecodeFault::Canceled, parts)
            } else if !stdout {
                late(DecodeFault::StdoutMissing, parts)
            } else if !stderr {
                late(DecodeFault::StderrMissing, parts)
            } else {
                SpawnStep::Continue(SpawnPhase::StartingStdoutPump)
            }
        },
        (SpawnPhase::StartingStdoutPump, SpawnEvent::PumpStarted) => SpawnStep::Continue(
            SpawnPhase::BetweenPumps,
        ),
        (SpawnPhase::StartingStdoutPump, SpawnEvent::PumpRefused(error)) => late(
            refused("启动音频 stdout pump 失败: ", error),
            PartialInventory {
                child: true,
                stdout: false,
                stderr: true,
                stdout_pump: false,
                stderr_pump: false,
                permit: true,
            },
        ),
        (SpawnPhase::BetweenPumps, SpawnEvent::Looked { canceled }) => {
            if *canceled {
                late(
                    DecodeFault::Canceled,
                    PartialInventory {
                        child: true,
                        stdout: false,
                        stderr: true,
                        stdout_pump: true,
                        stderr_pump: false,
                        permit: true,
                    },
                )
            } else {
                SpawnStep::Continue(SpawnPhase::StartingStderrPump)
            }
        },
        (SpawnPhase::StartingStderrPump, SpawnEvent::PumpStarted) => SpawnStep::Complete,
        (SpawnPhase::StartingStderrPump, SpawnEvent::PumpRefused(error)) => late(
            refused("启动音频 stderr pump 失败: ", error),
            PartialInventory {
                child: true,
                stdout: false,
                stderr: false,
                stdout_pump: true,
                stderr_pump: false,
                permit: true,
            },
        ),
        _ => SpawnStep::NotDue,
    }
}

/// Whether a process exists while a session is made.
pub open spec fn process_exists(phase: SpawnPhase) -> bool {
    phase is AfterSpawn || phase is StartingStdoutPump || phase is BetweenPumps
        || phase is StartingStderrPump
}

/// No process is lost: a failure hands the process with its permit to teardown exactly
/// where the process exists, and releases the permit exactly where it does not. A session
/// comes only out of a process with both pumps.
pub proof fn failures_lose_no_process(phase: SpawnPhase, event: SpawnEvent)
    ensures
        spawn_outcome(phase, event) matches SpawnOutcome::Failed { owner, permit_released, .. }
            ==> {
            &&& owner is Some <==> process_exists(phase)
            &&& owner matches Some(parts) ==> parts.child && parts.permit
            &&& permit_released <==> owner is None
        },
        spawn_outcome(phase, event) matches SpawnOutcome::Continue(next) ==> (process_exists(next)
            <==> process_exists(phase) || event is Spawned),
        spawn_outcome(phase, event) is Complete ==> phase is StartingStderrPump
            && event is PumpStarted,
{
}

/// A refused command ends the making of a session before a process is asked for: it leaves
/// no owner, frees the permit, and stays a refusal. Nothing else looks like one.
pub proof fn refusals_stay_refusals(phase: SpawnPhase, event: SpawnEvent)
    ensures
        phase is Commanding && event is CommandRefused ==> spawn_outcome(phase, event) == (
        SpawnOutcome::Failed {
            fault: FaultView::CommandRefused(event->CommandRefused_0@),
            owner: None,
            permit_released: true,
        }),
        spawn_outcome(phase, event) matches SpawnOutcome::Failed { fault, .. } ==> (
        fault is CommandRefused <==> phase is Commanding && event is CommandRefused),
{
}

/// The frames of all timestamps of an argument list together.
pub open spec fn sought_frames(arguments: Seq<ArgumentView>) -> int
    decreases arguments.len(),
{
    if arguments.len() == 0 {
        0
    } else {
        sought_frames(arguments.drop_last()) + match arguments.last() {
            ArgumentView::Timestamp(frames) => frames,
            _ => 0,
        }
    }
}

/// Whether an argument list gives an option a value: the option, and the value behind it.
pub open spec fn gives(arguments: Seq<ArgumentView>, option: Seq<char>, value: ArgumentView) -> bool {
    exists|i: int|
        0 <= i < arguments.len() - 1 && #[trigger] arguments[i] == ArgumentView::Text(option)
            && arguments[i + 1] == value
}

proof fn lemma_sought_joined(a: Seq<ArgumentView>, b: Seq<ArgumentView>)
    ensures
        sought_frames(a + b) == sought_frames(a) + sought_frames(b),
    decreases b.len(),
{
    if b.len() == 0 {
        assert(a + b =~= a);
    } else {
        lemma_sought_joined(a, b.drop_last());
        assert((a + b).drop_last() =~= a + b.drop_last());
        assert((a + b).last() == b.last());
    }
}

proof fn lemma_nothing_sought(a: Seq<ArgumentView>)
    requires
        forall|i: int| 0 <= i < a.len() ==> !(#[trigger] a[i] is Timestamp),
    ensures
        sought_frames(a) == 0,
    decreases a.len(),
{
    if a.len() > 0 {
        assert(!(a[a.len() - 1] is Timestamp));
        assert forall|i: int| 0 <= i < a.drop_last().len() implies !(
        #[trigger] a.drop_last()[i] is Timestamp) by {
            assert(a.drop_last()[i] == a[i]);
        }
        lemma_nothing_sought(a.drop_last());
    }
}

proof fn lemma_sought_seek(frames: int)
    requires
        frames >= 0,
    ensures
        sought_frames(seek_arguments(frames)) == frames,
{
    reveal_with_fuel(sought_frames, 3);
    let s = seek_arguments(frames);
    if frames > 0 {
        assert(s.drop_last() =~= seq![ArgumentView::Text("-ss"@)]);
        assert(s.drop_last().drop_last() =~= seq![]);
    }
}

proof fn lemma_sought_input(input: int, trim: int)
    requires
        input >= 0,
        trim >= 0,
    ensures
        sought_frames(input_arguments(input, trim)) == input + trim,
{
    let head = seq![
        ArgumentView::Text("-v"@),
        ArgumentView::Text("error"@),
        ArgumentView::Text("-nostdin"@),
    ];
    let mark = seq![ArgumentView::Text("-i"@), ArgumentView::Source];
    lemma_sought_joined(head + seek_arguments(input) + mark, seek_arguments(trim));
    lemma_sought_joined(head + seek_arguments(input), mark);
    lemma_sought_joined(head, seek_arguments(input));
    lemma_nothing_sought(head);
    lemma_nothing_sought(mark);
    lemma_sought_seek(input);
    lemma_sought_seek(trim);
}

/// What a decoder process is asked for reaches exactly the frame that the window starts at:
/// the frames of all seeks, before the input and behind it, add up to that frame, or to
/// nothing where it is negative. The input is sought no closer than the preroll of ten
/// seconds before that frame, so that no more than ten seconds are decoded and dropped, and
/// exactly ten where there are as many.
pub proof fn seeks_add_up(
    start_frame: i64,
    sample_rate: u32,
    stream_index: nat,
    channels: nat,
    before: Seq<ArgumentView>,
    behind: Seq<ArgumentView>,
)
    requires
        before + seq![ArgumentView::Source] + behind == input_arguments(
            input_start(start_frame, sample_rate),
            aimed_frame(start_frame) - input_start(start_frame, sample_rate),
        ) + output_arguments(stream_index, channels, sample_rate as nat),
        forall|i: int| 0 <= i < before.len() ==> !(#[trigger] before[i] is Source),
    ensures
        sought_frames(before) + sought_frames(behind) == (if start_frame < 0 {
            0
        } else {
            start_frame as int
        }),
        0 <= sought_frames(before),
        0 <= sought_frames(behind) <= 10 * sample_rate || sample_rate == 0,
        sample_rate > 0 && start_frame >= 10 * sample_rate ==> sought_frames(behind) == 10
            * sample_rate,
        sample_rate > 0 && start_frame < 10 * sample_rate ==> sought_frames(before) == 0,
{
    let input = input_start(start_frame, sample_rate);
    let trim = aimed_frame(start_frame) - input;
    let head = seq![
        ArgumentView::Text("-v"@),
        ArgumentView::Text("error"@),
        ArgumentView::Text("-nostdin"@),
    ];
    let mark = seq![ArgumentView::Text("-i"@)];
    let output = output_arguments(stream_index, channels, sample_rate as nat);
    let front = head + seek_arguments(input) + mark;
    let rear = seek_arguments(trim) + output;
    let whole = input_arguments(input, trim) + output;
    let source = seq![ArgumentView::Source];
    assert(whole =~= front + source + rear);
    assert(forall|i: int| 0 <= i < front.len() ==> !(#[trigger] front[i] is Source));
    assert(before.len() == front.len()) by {
        if before.len() < front.len() {
            assert(whole[before.len() as int] == (before + source + behind)[before.len() as int]);
            assert(front[before.len() as int] == whole[before.len() as int]);
        }
        if before.len() > front.len() {
            assert(whole[front.len() as int] == (front + source + rear)[front.len() as int]);
            assert(before[front.len() as int] == whole[front.len() as int]);
        }
    }
    assert(before =~= front) by {
        assert forall|i: int| 0 <= i < front.len() implies before[i] == front[i] by {
            assert(before[i] == whole[i]);
        }
    }
    assert(behind =~= rear) by {
        assert(behind.len() == rear.len());
        assert forall|i: int| 0 <= i < rear.len() implies behind[i] == rear[i] by {
            assert(behind[i] == whole[front.len() + 1 + i]);
        }
    }
    lemma_sought_joined(head + seek_arguments(input), mark);
    lemma_sought_joined(head, seek_arguments(input));
    lemma_sought_joined(seek_arguments(trim), output);
    lemma_nothing_sought(head);
    lemma_nothing_sought(mark);
    lemma_nothing_sought(output);
    lemma_sought_seek(input);
    lemma_sought_seek(trim);
}

/// Every time that a decoder process is given is the value of a seek, and what it writes is
/// the stream that was asked for, in its own number of channels and in the rate of the
/// session, as 32-bit samples to its output. No picture, text or data stream is written.
pub proof fn processes_write_what_is_asked_for(
    input: int,
    trim: int,
    stream_index: nat,
    channels: nat,
    sample_rate: nat,
)
    ensures
        ({
            let arguments = input_arguments(input, trim) + output_arguments(
                stream_index,
                channels,
                sample_rate,
            );
            &&& gives(arguments, "-i"@, ArgumentView::Source)
            &&& gives(arguments, "-map"@, ArgumentView::Text("0:"@ + decimal(stream_index)))
            &&& gives(arguments, "-ac"@, ArgumentView::Text(decimal(channels)))
            &&& gives(arguments, "-ar"@, ArgumentView::Text(decimal(sample_rate)))
            &&& gives(arguments, "-f"@, ArgumentView::Text("f32le"@))
            &&& gives(arguments, "-acodec"@, ArgumentView::Text("pcm_f32le"@))
            &&& gives(arguments, "-filter:a"@, ArgumentView::Text(identity_pan(channels)))
            &&& gives(arguments, "-v"@, ArgumentView::Text("error"@))
            &&& arguments.contains(ArgumentView::Text("-nostdin"@))
            &&& arguments.contains(ArgumentView::Text("-vn"@))
            &&& arguments.contains(ArgumentView::Text("-sn"@))
            &&& arguments.contains(ArgumentView::Text("-dn"@))
            &&& arguments.last() == ArgumentView::Text("pipe:1"@)
            &&& input > 0 ==> gives(arguments, "-ss"@, ArgumentView::Timestamp(input))
            &&& trim > 0 ==> gives(arguments, "-ss"@, ArgumentView::Timestamp(trim))
            &&& forall|i: int|
                0 <= i < arguments.len() && #[trigger] arguments[i] is Timestamp ==> i > 0
                    && arguments[i - 1] == ArgumentView::Text("-ss"@)
        }),
{
    let output = output_arguments(stream_index, channels, sample_rate);
    let fore = seek_arguments(input);
    let rear = seek_arguments(trim);
    let start = input_arguments(input, trim);
    let arguments = start + output;
    let n = 3 + fore.len() as int;
    let m = n + 2 + rear.len() as int;
    assert(start.len() == m);
    assert(arguments[0] == ArgumentView::Text("-v"@));
    assert(arguments[1] == ArgumentView::Text("error"@));
    assert(arguments[2] == ArgumentView::Text("-nostdin"@));
    assert(arguments[n] == ArgumentView::Text("-i"@) && arguments[n + 1] == ArgumentView::Source);
    assert forall|k: int| 0 <= k < 16 implies #[trigger] arguments[m + k] == output[k] by {}
    assert(arguments[m] == output[0] && arguments[m + 1] == output[1]);
    assert(arguments[m + 2] == output[2] && arguments[m + 3] == output[3]);
    assert(arguments[m + 4] == output[4] && arguments[m + 5] == output[5]);
    assert(arguments[m + 6] == output[6] && arguments[m + 7] == output[7]);
    assert(arguments[m + 8] == output[8] && arguments[m + 9] == output[9]);
    assert(arguments[m + 10] == output[10] && arguments[m + 11] == output[11]);
    assert(arguments[m + 12] == output[12] && arguments[m + 13] == output[13]);
    assert(arguments[m + 14] == output[14] && arguments[m + 15] == output[15]);
    if input > 0 {
        assert(arguments[3] == fore[0] && arguments[4] == fore[1]);
    }
    if trim > 0 {
        assert(arguments[n + 2] == rear[0] && arguments[n + 3] == rear[1]);
    }
}

} // verus!
