//! A decoder session: how the output of its process becomes windows of samples, and how
//! it ends.

use crate::audio_source::evidence::{
    child_recorded, no_evidence, pump_recorded, AudioWindowDecoderShutdownEvidence, ChildOutcome,
    PumpKind, PumpOutcome,
};
use crate::audio_source::fault::{DecodeFault, Surroundings};
use crate::audio_source::process::refusal_text;
use crate::text::{utf8_lossy, utf8_lossy_text};
use vstd::prelude::*;
use vstd::string::*;

verus! {

/// What the output pump of a process hands over.
#[derive(Debug, PartialEq, Eq)]
pub enum StdoutMessage {
    Data(Vec<u8>),
    /// The output has ended.
    Eof,
    /// The output could not be read.
    Error(String),
    /// The pump is gone.
    Disconnected,
    /// Nothing came in time.
    Timeout,
}

/// What the output pump read.
#[derive(Debug, PartialEq, Eq)]
pub enum PumpRead {
    Bytes(Vec<u8>),
    Failed(String),
}

/// What the output pump hands over for what it read, and whether that is its last act.
/// Nothing read is the end of the output.
pub fn pump_stdout(read: PumpRead) -> (r: (StdoutMessage, bool))
    ensures
        match read {
            PumpRead::Bytes(bytes) => if bytes@.len() == 0 {
                r.0 is Eof && r.1
            } else {
                r.0 == StdoutMessage::Data(bytes) && !r.1
            },
            PumpRead::Failed(error) => r.1 && (r.0 matches StdoutMessage::Error(text) && text@
                == refusal_text("读取 ffmpeg 持久音频输出失败: "@, error@)),
        },
{
    match read {
        PumpRead::Bytes(bytes) => {
            if bytes.len() == 0 {
                (StdoutMessage::Eof, true)
            } else {
                (StdoutMessage::Data(bytes), false)
            }
        },
        PumpRead::Failed(error) => {
            let mut text = "读取 ffmpeg 持久音频输出失败: ".to_owned();
            text.append(error.as_str());
            (StdoutMessage::Error(text), true)
        },
    }
}

/// What asking after a process brings.
#[derive(Debug, PartialEq, Eq)]
pub enum ExitLook {
    Running,
    Exited { success: bool },
    /// The system does not tell.
    Unknown(String),
}

/// What comes of asking after a process whose output has ended.
#[derive(Debug, PartialEq, Eq)]
pub enum TerminalStep {
    /// It still runs: ask again later.
    Again,
    /// It has ended.
    Ended { success: bool },
    /// There is no process to ask after.
    Gone,
    Failed(DecodeFault),
}

/// A window of samples, as bit patterns of 32-bit floats in frame order.
#[derive(Debug, PartialEq, Eq)]
pub struct DecodedWindow {
    pub samples: Vec<u32>,
    pub frames: usize,
}

/// The sample whose bytes, the lowest first, begin at a place.
pub open spec fn sample_at(bytes: Seq<u8>, i: int) -> u32 {
    (bytes[4 * i] + bytes[4 * i + 1] * 0x100 + bytes[4 * i + 2] * 0x1_0000 + bytes[4 * i + 3]
        * 0x100_0000) as u32
}

/// All samples of a byte sequence.
pub open spec fn samples_of(bytes: Seq<u8>) -> Seq<u32> {
    Seq::new(bytes.len() / 4, |i: int| sample_at(bytes, i))
}

/// A window that is being filled.
pub struct WindowAssembly {
    pub bytes: Vec<u8>,
    /// Bytes of the whole window.
    pub target: usize,
}

/// State of a session that the outcome of reads depends on.
#[derive(Debug)]
pub struct DecodeSession {
    /// Channels of a frame.
    pub channels: usize,
    /// The frame that the next window begins with, if it is sequential.
    pub next_frame: i64,
    /// Output that was received; the part from the offset on was not handed out yet.
    pub pending: Vec<u8>,
    pub pending_offset: usize,
    /// No output will come any more.
    pub ended: bool,
    /// The process still has to tell how it ended.
    pub awaiting_terminal_status: bool,
    /// The output pump is connected.
    pub connected: bool,
    /// The process is not known to have ended.
    pub child: bool,
    /// How the process ended, where it is known.
    pub terminal_success: Option<bool>,
    pub shutdown_evidence: AudioWindowDecoderShutdownEvidence,
}

/// Bytes of one frame, as far as memory could hold it.
pub open spec fn frame_bytes(channels: nat) -> nat {
    if channels * 4 > usize::MAX {
        usize::MAX as nat
    } else {
        channels * 4
    }
}

impl DecodeSession {
    /// A frame has channels, and the offset lies within the output.
    pub open spec fn wf(&self) -> bool {
        &&& self.channels >= 1
        &&& self.pending_offset <= self.pending@.len()
    }

    /// Output that was received and not handed out yet.
    pub open spec fn unread(&self) -> Seq<u8> {
        self.pending@.skip(self.pending_offset as int)
    }

    /// The session apart from its pending output.
    pub open spec fn same_but_output(&self, other: DecodeSession) -> bool {
        &&& self.channels == other.channels
        &&& self.next_frame == other.next_frame
        &&& self.ended == other.ended
        &&& self.awaiting_terminal_status == other.awaiting_terminal_status
        &&& self.connected == other.connected
        &&& self.child == other.child
        &&& self.terminal_success == other.terminal_success
        &&& self.shutdown_evidence == other.shutdown_evidence
    }

    /// A session whose process was just started with both pumps.
    pub fn open_at(channels: usize, start_frame: i64) -> (session: DecodeSession)
        requires
            channels >= 1,
        ensures
            session.wf(),
            session.channels == channels,
            session.next_frame == start_frame,
            session.unread() == Seq::<u8>::empty(),
            !session.ended,
            !session.awaiting_terminal_status,
            session.connected,
            session.child,
            session.terminal_success is None,
            session.shutdown_evidence == no_evidence(),
    {
        let session = DecodeSession {
            channels,
            next_frame: start_frame,
            pending: Vec::new(),
            pending_offset: 0,
            ended: false,
            awaiting_terminal_status: false,
            connected: true,
            child: true,
            terminal_success: None,
            shutdown_evidence: AudioWindowDecoderShutdownEvidence::default(),
        };
        assert(session.unread() =~= Seq::<u8>::empty());
        session
    }

    /// Begins a window of so many frames.
    pub fn begin_window(&self, frame_count: usize) -> (r: Result<WindowAssembly, DecodeFault>)
        requires
            self.wf(),
        ensures
            match r {
                Ok(assembly) => {
                    &&& assembly.target == frame_count * frame_bytes(self.channels as nat)
                    &&& self.channels * 4 <= usize::MAX ==> assembly.target == frame_count * (
                    self.channels * 4)
                    &&& assembly.bytes@.len() == 0
                },
                Err(fault) => {
                    &&& fault is WindowOverflow
                    &&& frame_count * frame_bytes(self.channels as nat) > usize::MAX
                },
            },
    {
        let per_frame: usize = self.frame_size();
        match frame_count.checked_mul(per_frame) {
            None => Err(DecodeFault::WindowOverflow),
            Some(target) => Ok(WindowAssembly { bytes: Vec::new(), target }),
        }
    }

    fn frame_size(&self) -> (r: usize)
        ensures
            r == frame_bytes(self.channels as nat),
    {
        match self.channels.checked_mul(4) {
            Some(size) => size,
            None => usize::MAX,
        }
    }

    /// Moves pending output into a window, as far as it is wanted. Nothing is lost, and
    /// nothing changes places.
    pub fn consume_pending(&mut self, assembly: &mut WindowAssembly)
        requires
            old(self).wf(),
            old(assembly).bytes@.len() <= old(assembly).target,
        ensures
            final(self).wf(),
            final(self).same_but_output(*old(self)),
            final(assembly).target == old(assembly).target,
            final(assembly).bytes@ + final(self).unread() == old(assembly).bytes@ + old(
                self,
            ).unread(),
            final(assembly).bytes@.len() <= final(assembly).target,
            final(assembly).bytes@.len() == final(assembly).target || final(self).unread().len()
                == 0,
    {
        let ghost before = self.unread();
        let ghost held = assembly.bytes@;
        let total: usize = self.pending.len();
        let available: usize = total - self.pending_offset;
        let wanted: usize = assembly.target - assembly.bytes.len();
        let count: usize = if available < wanted {
            available
        } else {
            wanted
        };
        let mut i: usize = 0;
        while i < count
            invariant
                i <= count <= before.len(),
                self.same_but_output(*old(self)),
                self.pending@ == old(self).pending@,
                self.pending_offset == old(self).pending_offset,
                old(self).pending_offset + count <= self.pending@.len() == total,
                before == self.pending@.skip(self.pending_offset as int),
                assembly.target == old(assembly).target,
                assembly.bytes@ == held + before.take(i as int),
            decreases count - i,
        {
            assembly.bytes.push(self.pending[self.pending_offset + i]);
            i += 1;
            assert(assembly.bytes@ =~= held + before.take(i as int));
        }
        self.pending_offset = self.pending_offset + count;
        assert(self.unread() =~= before.skip(count as int));
        assert(held + before.take(0) =~= held);
        if self.pending_offset >= self.pending.len() {
            self.pending.clear();
            self.pending_offset = 0;
            assert(self.unread() =~= before.skip(count as int));
        }
        assert(assembly.bytes@ + self.unread() =~= held + before);
    }

    /// Fills a window from pending output, and tells whether more output has to be waited
    /// for. A reader that has to stop gets nothing.
    pub fn fill(&mut self, assembly: &mut WindowAssembly, around: Surroundings) -> (r: Result<
        bool,
        DecodeFault,
    >)
        requires
            old(self).wf(),
            old(assembly).bytes@.len() <= old(assembly).target,
        ensures
            final(self).wf(),
            final(self).same_but_output(*old(self)),
            final(assembly).target == old(assembly).target,
            final(assembly).bytes@.len() <= final(assembly).target,
            final(assembly).bytes@ + final(self).unread() == old(assembly).bytes@ + old(
                self,
            ).unread(),
            match r {
                Err(fault) => {
                    &&& fault is Canceled
                    &&& around.interrupted()
                    &&& old(assembly).bytes@.len() < old(assembly).target
                    &&& final(assembly).bytes@ == old(assembly).bytes@
                },
                Ok(more) => {
                    &&& old(assembly).bytes@.len() < old(assembly).target ==> !around.interrupted()
                    &&& more == (final(assembly).bytes@.len() < final(assembly).target && !old(
                        self,
                    ).ended && old(self).connected)
                    &&& final(assembly).bytes@.len() == final(assembly).target
                        || final(self).unread().len() == 0
                },
            },
    {
        if assembly.bytes.len() >= assembly.target {
            return Ok(false);
        }
        if around.canceled || around.shutdown {
            return Err(DecodeFault::Canceled);
        }
        self.consume_pending(assembly);
        if assembly.bytes.len() >= assembly.target || self.ended {
            return Ok(false);
        }
        Ok(self.connected)
    }

    /// Takes what the output pump hands over, after all earlier output was handed out.
    pub fn receive(&mut self, message: StdoutMessage) -> (r: Result<(), DecodeFault>)
        requires
            old(self).wf(),
            old(self).unread().len() == 0,
        ensures
            final(self).wf(),
            match (message, r) {
                (StdoutMessage::Data(chunk), Ok(())) => {
                    &&& final(self).unread() == chunk@
                    &&& final(self).same_but_output(*old(self))
                },
                (StdoutMessage::Eof, Ok(())) => final(self).output_ended(*old(self)),
                (StdoutMessage::Timeout, Ok(())) => *final(self) == *old(self),
                (StdoutMessage::Disconnected, Err(fault)) => {
                    &&& fault is PumpDisconnected
                    &&& *final(self) == *old(self)
                },
                (StdoutMessage::Error(reason), Err(fault)) => {
                    &&& fault == DecodeFault::Reported(reason)
                    &&& *final(self) == *old(self)
                },
                _ => false,
            },
    {
        match message {
            StdoutMessage::Data(chunk) => {
                self.pending = chunk;
                self.pending_offset = 0;
                assert(self.unread() =~= chunk@);
                Ok(())
            },
            StdoutMessage::Eof => {
                self.finish_after_stdout();
                Ok(())
            },
            StdoutMessage::Error(reason) => Err(DecodeFault::Reported(reason)),
            StdoutMessage::Disconnected => Err(DecodeFault::PumpDisconnected),
            StdoutMessage::Timeout => Ok(()),
        }
    }

    /// The session after its output has ended: the process still has to tell how.
    pub open spec fn output_ended(&self, before: DecodeSession) -> bool {
        &&& *self == DecodeSession {
            ended: true,
            awaiting_terminal_status: true,
            connected: false,
            ..before
        }
    }

    fn finish_after_stdout(&mut self)
        ensures
            final(self).output_ended(*old(self)),
    {
        self.ended = true;
        self.awaiting_terminal_status = true;
        self.connected = false;
    }

    /// Whether the process has to be asked after.
    pub fn asks_after_process(&self) -> (r: bool)
        ensures
            r == (self.terminal_success is None && self.child),
    {
        self.terminal_success.is_none() && self.child
    }

    /// Takes note of how the process stands. One that failed ends the output.
    pub fn capture_exit_status(&mut self, look: ExitLook) -> (r: Result<(), DecodeFault>)
        requires
            old(self).wf(),
        ensures
            final(self).wf(),
            if old(self).terminal_success is Some || !old(self).child || look is Running {
                *final(self) == *old(self) && r is Ok
            } else {
                match (look, r) {
                    (ExitLook::Exited { success }, Ok(())) => *final(self) == exited(
                        *old(self),
                        success,
                    ),
                    (ExitLook::Unknown(error), Err(DecodeFault::Reported(text))) => {
                        &&& text@ == refusal_text("检查持久音频解码 Session 状态失败: "@, error@)
                        &&& *final(self) == process_unknown(*old(self))
                    },
                    _ => false,
                }
            },
    {
        if self.terminal_success.is_some() || !self.child {
            return Ok(());
        }
        match look {
            ExitLook::Running => Ok(()),
            ExitLook::Exited { success } => {
                self.note_exit();
                self.terminal_success = Some(success);
                if !success {
                    self.finish_after_stdout();
                }
                Ok(())
            },
            ExitLook::Unknown(error) => {
                self.note_unknown();
                let mut text = "检查持久音频解码 Session 状态失败: ".to_owned();
                text.append(error.as_str());
                Err(DecodeFault::Reported(text))
            },
        }
    }

    fn note_exit(&mut self)
        ensures
            *final(self) == (DecodeSession {
                child: false,
                shutdown_evidence: process_ended(old(self).shutdown_evidence),
                ..*old(self)
            }),
    {
        self.child = false;
        self.shutdown_evidence.child_processes_observed =
            self.shutdown_evidence.child_processes_observed.saturating_add(1);
        self.shutdown_evidence.child_processes_terminated =
            self.shutdown_evidence.child_processes_terminated.saturating_add(1);
    }

    fn note_unknown(&mut self)
        ensures
            *final(self) == process_unknown(*old(self)),
    {
        self.shutdown_evidence.child_process_termination_failures =
            self.shutdown_evidence.child_process_termination_failures.saturating_add(1);
    }

    /// Turns a filled window into samples, and moves on by its frames. A window that ends
    /// within a frame is refused.
    pub fn finish_window(&mut self, assembly: WindowAssembly) -> (r: Result<
        DecodedWindow,
        DecodeFault,
    >)
        requires
            old(self).wf(),
        ensures
            final(self).wf(),
            match r {
                Ok(window) => {
                    &&& assembly.bytes@.len() % frame_bytes(old(self).channels as nat) == 0
                    &&& window.samples@ == samples_of(assembly.bytes@)
                    &&& window.frames == window.samples@.len() / old(self).channels as nat
                    &&& old(self).channels * 4 <= usize::MAX ==> assembly.bytes@.len()
                        == window.frames * (old(self).channels * 4)
                    &&& *final(self) == DecodeSession {
                        next_frame: if old(self).next_frame + window.frames > i64::MAX {
                            i64::MAX
                        } else {
                            (old(self).next_frame + window.frames) as i64
                        },
                        ..*old(self)
                    }
                },
                Err(fault) => {
                    &&& fault is TruncatedFrame
                    &&& assembly.bytes@.len() % frame_bytes(old(self).channels as nat) != 0
                    &&& *final(self) == *old(self)
                },
            },
    {
        let per_frame: usize = self.frame_size();
        let len: usize = assembly.bytes.len();
        if len % per_frame != 0 {
            return Err(DecodeFault::TruncatedFrame);
        }
        let count: usize = len / 4;
        let mut samples: Vec<u32> = Vec::new();
        let mut i: usize = 0;
        while i < count
            invariant
                i <= count,
                count == len / 4,
                len == assembly.bytes@.len(),
                samples@ == samples_of(assembly.bytes@).take(i as int),
            decreases count - i,
        {
            let at: usize = 4 * i;
            let sample: u32 = assembly.bytes[at] as u32 + assembly.bytes[at + 1] as u32 * 0x100
                + assembly.bytes[at + 2] as u32 * 0x1_0000 + assembly.bytes[at + 3] as u32
                * 0x100_0000;
            assert(sample == sample_at(assembly.bytes@, i as int));
            samples.push(sample);
            i += 1;
            assert(samples@ =~= samples_of(assembly.bytes@).take(i as int));
        }
        assert(samples@ =~= samples_of(assembly.bytes@));
        let frames: usize = samples.len() / self.channels;
        assert(frames <= samples@.len()) by (nonlinear_arith)
            requires
                frames == samples@.len() / (self.channels as nat),
                self.channels >= 1,
        ;
        assert(self.channels * 4 <= usize::MAX ==> len == frames * (self.channels * 4))
            by (nonlinear_arith)
            requires
                self.channels >= 1,
                self.channels * 4 <= usize::MAX ==> per_frame == self.channels * 4,
                per_frame > 0,
                len % per_frame == 0,
                frames == (len / 4) / self.channels,
        {
            if self.channels * 4 <= usize::MAX {
                let c = self.channels as int;
                let k = len as int / per_frame as int;
                assert(len == k * (c * 4));
                assert(k * (c * 4) == 4 * (k * c));
                assert(len as int / 4 == k * c);
                assert((k * c) / c == k);
            }
        }
        self.next_frame = saturating_advance(self.next_frame, frames as u64);
        Ok(DecodedWindow { samples, frames })
    }
}

fn saturating_advance(frame: i64, frames: u64) -> (r: i64)
    requires
        frames <= i64::MAX,
    ensures
        r == (if frame + frames > i64::MAX {
            i64::MAX as int
        } else {
            frame + frames
        }),
{
    let sum: i128 = frame as i128 + frames as i128;
    if sum > 0x7fff_ffff_ffff_ffff {
        i64::MAX
    } else {
        sum as i64
    }
}

/// Evidence after a process was found to have ended.
pub open spec fn process_ended(evidence: AudioWindowDecoderShutdownEvidence) -> AudioWindowDecoderShutdownEvidence {
    AudioWindowDecoderShutdownEvidence {
        child_processes_observed: evidence.child_processes_observed.saturating_add(1),
        child_processes_terminated: evidence.child_processes_terminated.saturating_add(1),
        ..evidence
    }
}

/// A session after its process was found to have ended.
pub open spec fn exited(session: DecodeSession, success: bool) -> DecodeSession {
    let ended = DecodeSession {
        child: false,
        terminal_success: Some(success),
        shutdown_evidence: process_ended(session.shutdown_evidence),
        ..session
    };
    if success {
        ended
    } else {
        DecodeSession { ended: true, awaiting_terminal_status: true, connected: false, ..ended }
    }
}

/// A session after the system did not tell how its process stands.
pub open spec fn process_unknown(session: DecodeSession) -> DecodeSession {
    DecodeSession {
        shutdown_evidence: AudioWindowDecoderShutdownEvidence {
            child_process_termination_failures: session.shutdown_evidence.child_process_termination_failures.saturating_add(
            1),
            ..session.shutdown_evidence
        },
        ..session
    }
}

/// A session whose end its owner looks after.
pub open spec fn finalizing(session: DecodeSession) -> DecodeSession {
    DecodeSession {
        ended: true,
        awaiting_terminal_status: false,
        connected: false,
        ..session
    }
}

impl DecodeSession {
    /// Asks after the process once the output has ended. `overdue` tells that the time to
    /// wait is over.
    pub fn finalize_status(&mut self, look: ExitLook, overdue: bool) -> (step: TerminalStep)
        requires
            old(self).wf(),
        ensures
            final(self).wf(),
            match old(self).terminal_success {
                Some(success) => {
                    &&& step == TerminalStep::Ended { success }
                    &&& *final(self) == (DecodeSession {
                        terminal_success: None,
                        ..finalizing(*old(self))
                    })
                },
                None => if !old(self).child {
                    step is Gone && *final(self) == finalizing(*old(self))
                } else {
                    match look {
                        ExitLook::Running => {
                            &&& *final(self) == finalizing(*old(self))
                            &&& if overdue {
                                step matches TerminalStep::Failed(fault)
                                    && fault is TerminalStatusMissing
                            } else {
                                step is Again
                            }
                        },
                        ExitLook::Exited { success } => {
                            &&& step == TerminalStep::Ended { success }
                            &&& *final(self) == (DecodeSession {
                                child: false,
                                shutdown_evidence: process_ended(old(self).shutdown_evidence),
                                ..finalizing(*old(self))
                            })
                        },
                        ExitLook::Unknown(error) => {
                            &&& step matches TerminalStep::Failed(DecodeFault::Reported(text))
                                && text@ == refusal_text(
                                "检查持久音频解码 Session 终止状态失败: "@,
                                error@,
                            )
                            &&& *final(self) == process_unknown(finalizing(*old(self)))
                        },
                    }
                },
            },
    {
        self.ended = true;
        self.awaiting_terminal_status = false;
        self.connected = false;
        match self.terminal_success {
            Some(success) => {
                self.terminal_success = None;
                return TerminalStep::Ended { success };
            },
            None => {},
        }
        if !self.child {
            return TerminalStep::Gone;
        }
        match look {
            ExitLook::Running => {
                if overdue {
                    TerminalStep::Failed(DecodeFault::TerminalStatusMissing)
                } else {
                    TerminalStep::Again
                }
            },
            ExitLook::Exited { success } => {
                self.note_exit();
                TerminalStep::Ended { success }
            },
            ExitLook::Unknown(error) => {
                self.note_unknown();
                let mut text = "检查持久音频解码 Session 终止状态失败: ".to_owned();
                text.append(error.as_str());
                TerminalStep::Failed(DecodeFault::Reported(text))
            },
        }
    }

    /// Ends a session: all its resources are released. What became of them is handed out.
    pub fn terminate(
        &mut self,
        child: Option<ChildOutcome>,
        stdout_pump: Option<PumpOutcome>,
        stderr_pump: Option<PumpOutcome>,
    ) -> (r: AudioWindowDecoderShutdownEvidence)
        requires
            old(self).wf(),
        ensures
            final(self).wf(),
            r == released_evidence(old(self).shutdown_evidence, child, stdout_pump, stderr_pump),
            final(self).channels == old(self).channels,
            final(self).next_frame == old(self).next_frame,
            final(self).unread().len() == 0,
            final(self).ended,
            final(self).awaiting_terminal_status == old(self).awaiting_terminal_status,
            !final(self).connected,
            !final(self).child,
            final(self).terminal_success is None,
            final(self).shutdown_evidence == no_evidence(),
    {
        let evidence = self.shutdown_evidence;
        self.ended = true;
        self.connected = false;
        self.child = false;
        self.terminal_success = None;
        self.pending.clear();
        self.pending_offset = 0;
        self.shutdown_evidence = AudioWindowDecoderShutdownEvidence::default();
        release_parts(evidence, child, stdout_pump, stderr_pump)
    }
}

/// Evidence after the parts of a session were released, as far as it has them.
pub open spec fn released_evidence(
    evidence: AudioWindowDecoderShutdownEvidence,
    child: Option<ChildOutcome>,
    stdout_pump: Option<PumpOutcome>,
    stderr_pump: Option<PumpOutcome>,
) -> AudioWindowDecoderShutdownEvidence {
    let after_child = match child {
        Some(outcome) => child_recorded(evidence, outcome),
        None => evidence,
    };
    let after_stdout = match stdout_pump {
        Some(outcome) => pump_recorded(after_child, PumpKind::Stdout, outcome),
        None => after_child,
    };
    match stderr_pump {
        Some(outcome) => pump_recorded(after_stdout, PumpKind::Stderr, outcome),
        None => after_stdout,
    }
}

/// Evidence after the parts of a session, or of one that was never completed, were
/// released.
pub fn release_parts(
    evidence: AudioWindowDecoderShutdownEvidence,
    child: Option<ChildOutcome>,
    stdout_pump: Option<PumpOutcome>,
    stderr_pump: Option<PumpOutcome>,
) -> (r: AudioWindowDecoderShutdownEvidence)
    ensures
        r == released_evidence(evidence, child, stdout_pump, stderr_pump),
{
    let mut evidence = evidence;
    match child {
        Some(outcome) => evidence.record_child(outcome),
        None => {},
    }
    match stdout_pump {
        Some(outcome) => evidence.record_pump(PumpKind::Stdout, outcome),
        None => {},
    }
    match stderr_pump {
        Some(outcome) => evidence.record_pump(PumpKind::Stderr, outcome),
        None => {},
    }
    evidence
}

/// What the end of a process means: a failed one is reported with the tail of its errors.
pub fn terminal_result(success: bool, stderr_tail: &[u8]) -> (r: Result<(), DecodeFault>)
    ensures
        match r {
            Ok(()) => success,
            Err(fault) => {
                &&& !success
                &&& fault matches DecodeFault::Reported(text) && text@ == refusal_text(
                    "ffmpeg 持久音频解码 Session 失败: "@,
                    utf8_lossy_text(stderr_tail@),
                )
            },
        },
{
    if success {
        Ok(())
    } else {
        let mut text = "ffmpeg 持久音频解码 Session 失败: ".to_owned();
        let tail = utf8_lossy(stderr_tail);
        text.append(tail.as_str());
        Err(DecodeFault::Reported(text))
    }
}

/// What a reader finds when it waits for the end of a session.
#[derive(Debug, PartialEq, Eq)]
pub enum TerminalLook {
    Settled,
    /// The session ended badly.
    Failed(String),
    /// The teardown worker dropped the session.
    Disconnected,
    /// Nothing came in time. `overdue` tells that the time to wait is over.
    Timeout { overdue: bool },
}

/// What a reader that waits for the end of a session does: it is settled, or has to be
/// waited for, or fails. Cancellation and shutdown come first.
pub fn await_terminal(around: Surroundings, look: TerminalLook) -> (r: Result<bool, DecodeFault>)
    ensures
        if around.interrupted() {
            r matches Err(fault) && fault is Canceled
        } else {
            match look {
                TerminalLook::Settled => r == Ok::<bool, DecodeFault>(true),
                TerminalLook::Failed(reason) => r == Err::<bool, DecodeFault>(
                    DecodeFault::Reported(reason),
                ),
                TerminalLook::Disconnected => r matches Err(fault) && fault is TerminalUnpublished,
                TerminalLook::Timeout { overdue } => if overdue {
                    r matches Err(fault) && fault is TerminalOverdue
                } else {
                    r == Ok::<bool, DecodeFault>(false)
                },
            }
        },
{
    if around.canceled || around.shutdown {
        return Err(DecodeFault::Canceled);
    }
    match look {
        TerminalLook::Settled => Ok(true),
        TerminalLook::Failed(reason) => Err(DecodeFault::Reported(reason)),
        TerminalLook::Disconnected => Err(DecodeFault::TerminalUnpublished),
        TerminalLook::Timeout { overdue } => {
            if overdue {
                Err(DecodeFault::TerminalOverdue)
            } else {
                Ok(false)
            }
        },
    }
}

/// Windows that follow each other hold the samples of the output in a row: cutting it
/// between frames changes none of them.
pub proof fn windows_concatenate(first: Seq<u8>, rest: Seq<u8>)
    requires
        first.len() % 4 == 0,
    ensures
        samples_of(first + rest) == samples_of(first) + samples_of(rest),
{
    let both = samples_of(first + rest);
    let parts = samples_of(first) + samples_of(rest);
    let cut = first.len() / 4;
    assert forall|i: int| 0 <= i < both.len() implies both[i] == parts[i] by {
        if i < cut {
            assert((first + rest)[4 * i] == first[4 * i]);
        } else {
            let j = i - cut;
            assert((first + rest)[4 * i] == rest[4 * j]);
            assert((first + rest)[4 * i + 1] == rest[4 * j + 1]);
            assert((first + rest)[4 * i + 2] == rest[4 * j + 2]);
            assert((first + rest)[4 * i + 3] == rest[4 * j + 3]);
        }
    }
    assert(both =~= parts);
}

/// A sample is its four bytes, the lowest first, and the bytes can be read back from it.
pub proof fn samples_keep_their_bytes(bytes: Seq<u8>, i: int)
    requires
        0 <= i < bytes.len() / 4,
    ensures
        samples_of(bytes).len() == bytes.len() / 4,
        ({
            let sample = samples_of(bytes)[i];
            &&& bytes[4 * i] == sample % 256
            &&& bytes[4 * i + 1] == sample / 256 % 256
            &&& bytes[4 * i + 2] == sample / 65_536 % 256
            &&& bytes[4 * i + 3] == sample / 16_777_216
        }),
{
}

/// A frame is one sample of four bytes for each channel.
pub proof fn frames_hold_a_sample_per_channel(channels: nat)
    requires
        channels * 4 <= usize::MAX,
    ensures
        frame_bytes(channels) == channels + channels + channels + channels,
{
}

/// A process that has ended is counted once, in both counters, and its session has none
/// any more. One that failed ends the output; one that did not leaves it to be read.
pub proof fn ended_processes_are_counted(session: DecodeSession, success: bool)
    requires
        session.shutdown_evidence.child_processes_observed < u32::MAX,
        session.shutdown_evidence.child_processes_terminated < u32::MAX,
    ensures
        ({
            let after = exited(session, success);
            let before = session.shutdown_evidence;
            &&& !after.child
            &&& after.terminal_success == Some(success)
            &&& after.shutdown_evidence.child_processes_observed
                == before.child_processes_observed + 1
            &&& after.shutdown_evidence.child_processes_terminated
                == before.child_processes_terminated + 1
            &&& after.shutdown_evidence.child_process_termination_failures
                == before.child_process_termination_failures
            &&& after.next_frame == session.next_frame
            &&& after.pending@ == session.pending@
            &&& success ==> after.connected == session.connected && after.ended == session.ended
                && after.awaiting_terminal_status == session.awaiting_terminal_status
            &&& !success ==> after.ended && !after.connected && after.awaiting_terminal_status
        }),
{
}

/// A process of which the system does not tell how it stands is a failure, and stays.
pub proof fn unknown_processes_show(session: DecodeSession)
    ensures
        process_unknown(session).child == session.child,
        process_unknown(session).terminal_success == session.terminal_success,
        process_unknown(session).shutdown_evidence.child_process_termination_failures > 0,
        process_unknown(session).shutdown_evidence.child_processes_observed
            == session.shutdown_evidence.child_processes_observed,
        session.shutdown_evidence.child_process_termination_failures < u32::MAX
            ==> process_unknown(session).shutdown_evidence.child_process_termination_failures
            == session.shutdown_evidence.child_process_termination_failures + 1,
        finalizing(session).ended,
        !finalizing(session).connected,
        !finalizing(session).awaiting_terminal_status,
        finalizing(session).child == session.child,
{
}

/// Releasing a session observes exactly the parts that it has.
pub proof fn releasing_observes_each_part(
    evidence: AudioWindowDecoderShutdownEvidence,
    child: Option<ChildOutcome>,
    stdout_pump: Option<PumpOutcome>,
    stderr_pump: Option<PumpOutcome>,
)
    requires
        evidence.child_processes_observed < u32::MAX,
        evidence.stdout_pump_threads_observed < u32::MAX,
        evidence.stderr_pump_threads_observed < u32::MAX,
    ensures
        ({
            let after = released_evidence(evidence, child, stdout_pump, stderr_pump);
            &&& child is Some <==> after.child_processes_observed
                == evidence.child_processes_observed + 1
            &&& child is None <==> after.child_processes_observed
                == evidence.child_processes_observed
            &&& stdout_pump is Some <==> after.stdout_pump_threads_observed
                == evidence.stdout_pump_threads_observed + 1
            &&& stdout_pump is None <==> after.stdout_pump_threads_observed
                == evidence.stdout_pump_threads_observed
            &&& stderr_pump is Some <==> after.stderr_pump_threads_observed
                == evidence.stderr_pump_threads_observed + 1
            &&& stderr_pump is None <==> after.stderr_pump_threads_observed
                == evidence.stderr_pump_threads_observed
            &&& stdout_pump == Some(PumpOutcome::Joined)
                ==> after.stdout_pump_threads_panicked == evidence.stdout_pump_threads_panicked
            &&& stderr_pump == Some(PumpOutcome::Joined)
                ==> after.stderr_pump_threads_panicked == evidence.stderr_pump_threads_panicked
        }),
{
}

/// Handing output on changes nothing else of a session: where it stands, how it ended, and
/// what it looks after stay as they are.
pub proof fn output_is_all_that_changes(session: DecodeSession, before: DecodeSession)
    requires
        session.same_but_output(before),
    ensures
        session.channels == before.channels,
        session.next_frame == before.next_frame,
        session.ended == before.ended,
        session.awaiting_terminal_status == before.awaiting_terminal_status,
        session.connected == before.connected,
        session.child == before.child,
        session.terminal_success == before.terminal_success,
        session.shutdown_evidence == before.shutdown_evidence,
{
}

/// Where the output has ended, nothing more is waited for but how the process ended: what was
/// received stays to be handed out.
pub proof fn ended_output_is_still_handed_out(session: DecodeSession, before: DecodeSession)
    requires
        session.output_ended(before),
    ensures
        session.ended,
        session.awaiting_terminal_status,
        !session.connected,
        session.unread() == before.unread(),
        session.next_frame == before.next_frame,
        session.child == before.child,
        session.terminal_success == before.terminal_success,
{
}

} // verus!
