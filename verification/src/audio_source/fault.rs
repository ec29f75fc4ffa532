//! Failures of a window decode, and their texts.

use crate::ffmpeg_tools::{DomainFailure, ErrorNode};
use crate::text::{contains_text, occurs_at};
use vstd::prelude::*;
use vstd::string::*;

verus! {

/// Why a window could not be decoded.
#[derive(Debug, PartialEq, Eq)]
pub enum DecodeFault {
    /// The reader was canceled, or the decoder is shutting down.
    Canceled,
    /// No worker can retire sessions.
    TeardownUnavailable,
    /// The teardown queue refused an owner that it must have room for.
    TeardownOverflow,
    /// There is no session to decode with.
    SessionMissing,
    /// No worker can start sessions.
    StartupUnavailable,
    /// The result of a startup was taken before.
    StartupAlreadyClaimed,
    /// The worker that ends a session stopped silently.
    TerminalUnpublished,
    /// The worker that ends a session took too long.
    TerminalOverdue,
    /// The process did not end after its output.
    TerminalStatusMissing,
    /// The output pump vanished before the end of the output.
    PumpDisconnected,
    /// The output ends within a frame.
    TruncatedFrame,
    /// The window has more bytes than memory can hold.
    WindowOverflow,
    /// The process has no output pipe.
    StdoutMissing,
    /// The process has no error pipe.
    StderrMissing,
    /// The command may not be run at all. This is its text.
    CommandRefused(String),
    /// What the system, the process or another part of the program reported.
    Reported(String),
}

/// Mathematical reading of a failure.
pub enum FaultView {
    Canceled,
    TeardownUnavailable,
    TeardownOverflow,
    SessionMissing,
    StartupUnavailable,
    StartupAlreadyClaimed,
    TerminalUnpublished,
    TerminalOverdue,
    TerminalStatusMissing,
    PumpDisconnected,
    TruncatedFrame,
    WindowOverflow,
    StdoutMissing,
    StderrMissing,
    CommandRefused(Seq<char>),
    Reported(Seq<char>),
}

impl View for DecodeFault {
    type V = FaultView;

    open spec fn view(&self) -> FaultView {
        match *self {
            DecodeFault::Canceled => FaultView::Canceled,
            DecodeFault::TeardownUnavailable => FaultView::TeardownUnavailable,
            DecodeFault::TeardownOverflow => FaultView::TeardownOverflow,
            DecodeFault::SessionMissing => FaultView::SessionMissing,
            DecodeFault::StartupUnavailable => FaultView::StartupUnavailable,
            DecodeFault::StartupAlreadyClaimed => FaultView::StartupAlreadyClaimed,
            DecodeFault::TerminalUnpublished => FaultView::TerminalUnpublished,
            DecodeFault::TerminalOverdue => FaultView::TerminalOverdue,
            DecodeFault::TerminalStatusMissing => FaultView::TerminalStatusMissing,
            DecodeFault::PumpDisconnected => FaultView::PumpDisconnected,
            DecodeFault::TruncatedFrame => FaultView::TruncatedFrame,
            DecodeFault::WindowOverflow => FaultView::WindowOverflow,
            DecodeFault::StdoutMissing => FaultView::StdoutMissing,
            DecodeFault::StderrMissing => FaultView::StderrMissing,
            DecodeFault::CommandRefused(text) => FaultView::CommandRefused(text@),
            DecodeFault::Reported(text) => FaultView::Reported(text@),
        }
    }
}

/// The text of a failure.
pub open spec fn fault_text(fault: DecodeFault) -> Seq<char> {
    match fault {
        DecodeFault::Canceled => "audio decode canceled"@,
        DecodeFault::TeardownUnavailable => "persistent audio teardown worker is unavailable"@,
        DecodeFault::TeardownOverflow => {
            "persistent audio teardown queue exceeded its proven capacity"@
        },
        DecodeFault::SessionMissing => "persistent audio session was not created"@,
        DecodeFault::StartupUnavailable => "persistent audio startup owner is unavailable"@,
        DecodeFault::StartupAlreadyClaimed => "startup completion was already claimed"@,
        DecodeFault::TerminalUnpublished => {
            "persistent audio terminal owner stopped without publication"@
        },
        DecodeFault::TerminalOverdue => {
            "persistent audio terminal owner exceeded its bounded EOF grace"@
        },
        DecodeFault::TerminalStatusMissing => {
            "persistent audio session did not publish terminal status after stdout EOF"@
        },
        DecodeFault::PumpDisconnected => {
            "persistent audio stdout pump disconnected without an EOF contract"@
        },
        DecodeFault::TruncatedFrame => {
            "ffmpeg returned a truncated interleaved f32le audio frame"@
        },
        DecodeFault::WindowOverflow => "audio decode window extent overflow"@,
        DecodeFault::StdoutMissing => "ffmpeg persistent session did not expose stdout"@,
        DecodeFault::StderrMissing => "ffmpeg persistent session did not expose stderr"@,
        DecodeFault::CommandRefused(text) => text@,
        DecodeFault::Reported(text) => text@,
    }
}

impl DecodeFault {
    /// The text of this failure.
    pub fn reason(&self) -> (text: String)
        ensures
            text@ == fault_text(*self),
    {
        match self {
            DecodeFault::Canceled => "audio decode canceled".to_owned(),
            DecodeFault::TeardownUnavailable => {
                "persistent audio teardown worker is unavailable".to_owned()
            },
            DecodeFault::TeardownOverflow => {
                "persistent audio teardown queue exceeded its proven capacity".to_owned()
            },
            DecodeFault::SessionMissing => "persistent audio session was not created".to_owned(),
            DecodeFault::StartupUnavailable => {
                "persistent audio startup owner is unavailable".to_owned()
            },
            DecodeFault::StartupAlreadyClaimed => {
                "startup completion was already claimed".to_owned()
            },
            DecodeFault::TerminalUnpublished => {
                "persistent audio terminal owner stopped without publication".to_owned()
            },
            DecodeFault::TerminalOverdue => {
                "persistent audio terminal owner exceeded its bounded EOF grace".to_owned()
            },
            DecodeFault::TerminalStatusMissing => {
                "persistent audio session did not publish terminal status after stdout EOF".to_owned()
            },
            DecodeFault::PumpDisconnected => {
                "persistent audio stdout pump disconnected without an EOF contract".to_owned()
            },
            DecodeFault::TruncatedFrame => {
                "ffmpeg returned a truncated interleaved f32le audio frame".to_owned()
            },
            DecodeFault::WindowOverflow => "audio decode window extent overflow".to_owned(),
            DecodeFault::StdoutMissing => {
                "ffmpeg persistent session did not expose stdout".to_owned()
            },
            DecodeFault::StderrMissing => {
                "ffmpeg persistent session did not expose stderr".to_owned()
            },
            DecodeFault::CommandRefused(text) => text.clone(),
            DecodeFault::Reported(text) => text.clone(),
        }
    }

    /// This failure as one of the application. A refusal of a command stays one among its
    /// causes; the others have none that matter. Only the refusal and a window beyond
    /// memory are not failures to decode the source.
    pub fn domain_failure(&self) -> (failure: DomainFailure)
        ensures
            failure.from_refusal() == (self is CommandRefused),
            match failure {
                DomainFailure::Other(chain) => {
                    &&& self is CommandRefused || self is WindowOverflow
                    &&& chain@ == seq![
                        ErrorNode {
                            refusal: self is CommandRefused,
                            inner: None,
                            source: None,
                        },
                    ]
                },
                DomainFailure::Known(error) => {
                    &&& !(self is CommandRefused || self is WindowOverflow)
                    &&& error == (ErrorNode { refusal: false, inner: None, source: None })
                },
            },
    {
        let refusal = match self {
            DecodeFault::CommandRefused(_) => true,
            _ => false,
        };
        let error = ErrorNode { refusal, inner: None, source: None };
        match self {
            DecodeFault::CommandRefused(_) | DecodeFault::WindowOverflow => {
                let mut chain: Vec<ErrorNode> = Vec::new();
                chain.push(error);
                assert(crate::ffmpeg_tools::has_refusal(chain@[0]) == refusal);
                assert(crate::ffmpeg_tools::any_refusal(chain@) == refusal);
                DomainFailure::Other(chain)
            },
            _ => DomainFailure::Known(error),
        }
    }
}

/// What a waiting step of a reader sees of the world around it.
#[derive(Debug, Clone, Copy, PartialEq, Eq, Structural)]
pub struct Surroundings {
    /// The reader was canceled.
    pub canceled: bool,
    /// The decoder was asked to shut down.
    pub shutdown: bool,
    /// No worker can retire sessions.
    pub faulted: bool,
}

impl Surroundings {
    /// Whether the reader has to stop.
    pub open spec fn interrupted(&self) -> bool {
        self.canceled || self.shutdown
    }
}

/// The failure that the surroundings impose: cancellation and shutdown before a lost
/// teardown worker.
pub open spec fn imposed_fault(around: Surroundings) -> Option<DecodeFault> {
    if around.interrupted() {
        Some(DecodeFault::Canceled)
    } else if around.faulted {
        Some(DecodeFault::TeardownUnavailable)
    } else {
        None
    }
}

/// Stops a reader where its surroundings demand it.
pub fn check_surroundings(around: Surroundings) -> (r: Result<(), DecodeFault>)
    ensures
        match (imposed_fault(around), r) {
            (Some(expected), Err(fault)) => fault == expected,
            (None, Ok(())) => true,
            _ => false,
        },
{
    if around.canceled || around.shutdown {
        Err(DecodeFault::Canceled)
    } else if around.faulted {
        Err(DecodeFault::TeardownUnavailable)
    } else {
        Ok(())
    }
}

/// A reader may go on only where nothing stops it. Cancellation and shutdown tell the same,
/// and come before a lost teardown worker.
pub proof fn readers_stop_for_a_reason(around: Surroundings)
    ensures
        imposed_fault(around) is None <==> !around.canceled && !around.shutdown && !around.faulted,
        around.canceled || around.shutdown ==> imposed_fault(around) == Some(DecodeFault::Canceled),
        !around.canceled && !around.shutdown && around.faulted ==> imposed_fault(around) == Some(
            DecodeFault::TeardownUnavailable,
        ),
        around.interrupted() <==> around.canceled || around.shutdown,
{
}

/// The text of a failure names what failed, and so tells it from the others.
pub proof fn failures_name_what_failed(fault: DecodeFault)
    ensures
        fault is Canceled ==> contains_text(fault_text(fault), "canceled"@),
        fault is TeardownUnavailable ==> contains_text(fault_text(fault), "teardown worker is unavailable"@),
        fault is TeardownOverflow ==> contains_text(fault_text(fault), "teardown queue exceeded"@),
        fault is SessionMissing ==> contains_text(fault_text(fault), "was not created"@),
        fault is StartupUnavailable ==> contains_text(fault_text(fault), "startup owner is unavailable"@),
        fault is StartupAlreadyClaimed ==> contains_text(fault_text(fault), "already claimed"@),
        fault is TerminalUnpublished ==> contains_text(fault_text(fault), "stopped without publication"@),
        fault is TerminalOverdue ==> contains_text(fault_text(fault), "exceeded its bounded EOF grace"@),
        fault is TerminalStatusMissing ==> contains_text(fault_text(fault), "did not publish terminal status"@),
        fault is PumpDisconnected ==> contains_text(fault_text(fault), "pump disconnected"@),
        fault is TruncatedFrame ==> contains_text(fault_text(fault), "truncated"@),
        fault is WindowOverflow ==> contains_text(fault_text(fault), "window extent overflow"@),
        fault is StdoutMissing ==> contains_text(fault_text(fault), "expose stdout"@),
        fault is StderrMissing ==> contains_text(fault_text(fault), "expose stderr"@),
{
    reveal_strlit("audio decode canceled");
    reveal_strlit("canceled");
    reveal_strlit("persistent audio teardown worker is unavailable");
    reveal_strlit("teardown worker is unavailable");
    reveal_strlit("persistent audio teardown queue exceeded its proven capacity");
    reveal_strlit("teardown queue exceeded");
    reveal_strlit("persistent audio session was not created");
    reveal_strlit("was not created");
    reveal_strlit("persistent audio startup owner is unavailable");
    reveal_strlit("startup owner is unavailable");
    reveal_strlit("startup completion was already claimed");
    reveal_strlit("already claimed");
    reveal_strlit("persistent audio terminal owner stopped without publication");
    reveal_strlit("stopped without publication");
    reveal_strlit("persistent audio terminal owner exceeded its bounded EOF grace");
    reveal_strlit("exceeded its bounded EOF grace");
    reveal_strlit("persistent audio session did not publish terminal status after stdout EOF");
    reveal_strlit("did not publish terminal status");
    reveal_strlit("persistent audio stdout pump disconnected without an EOF contract");
    reveal_strlit("pump disconnected");
    reveal_strlit("ffmpeg returned a truncated interleaved f32le audio frame");
    reveal_strlit("truncated");
    reveal_strlit("audio decode window extent overflow");
    reveal_strlit("window extent overflow");
    reveal_strlit("ffmpeg persistent session did not expose stdout");
    reveal_strlit("expose stdout");
    reveal_strlit("ffmpeg persistent session did not expose stderr");
    reveal_strlit("expose stderr");
    if fault is Canceled {
        let text = fault_text(fault);
        assert(text.subrange(13, 21) =~= "canceled"@);
        assert(occurs_at(text, "canceled"@, 13));
    }
    if fault is TeardownUnavailable {
        let text = fault_text(fault);
        assert(text.subrange(17, 47) =~= "teardown worker is unavailable"@);
        assert(occurs_at(text, "teardown worker is unavailable"@, 17));
    }
    if fault is TeardownOverflow {
        let text = fault_text(fault);
        assert(text.subrange(17, 40) =~= "teardown queue exceeded"@);
        assert(occurs_at(text, "teardown queue exceeded"@, 17));
    }
    if fault is SessionMissing {
        let text = fault_text(fault);
        assert(text.subrange(25, 40) =~= "was not created"@);
        assert(occurs_at(text, "was not created"@, 25));
    }
    if fault is StartupUnavailable {
        let text = fault_text(fault);
        assert(text.subrange(17, 45) =~= "startup owner is unavailable"@);
        assert(occurs_at(text, "startup owner is unavailable"@, 17));
    }
    if fault is StartupAlreadyClaimed {
        let text = fault_text(fault);
        assert(text.subrange(23, 38) =~= "already claimed"@);
        assert(occurs_at(text, "already claimed"@, 23));
    }
    if fault is TerminalUnpublished {
        let text = fault_text(fault);
        assert(text.subrange(32, 59) =~= "stopped without publication"@);
        assert(occurs_at(text, "stopped without publication"@, 32));
    }
    if fault is TerminalOverdue {
        let text = fault_text(fault);
        assert(text.subrange(32, 62) =~= "exceeded its bounded EOF grace"@);
        assert(occurs_at(text, "exceeded its bounded EOF grace"@, 32));
    }
    if fault is TerminalStatusMissing {
        let text = fault_text(fault);
        assert(text.subrange(25, 56) =~= "did not publish terminal status"@);
        assert(occurs_at(text, "did not publish terminal status"@, 25));
    }
    if fault is PumpDisconnected {
        let text = fault_text(fault);
        assert(text.subrange(24, 41) =~= "pump disconnected"@);
        assert(occurs_at(text, "pump disconnected"@, 24));
    }
    if fault is TruncatedFrame {
        let text = fault_text(fault);
        assert(text.subrange(18, 27) =~= "truncated"@);
        assert(occurs_at(text, "truncated"@, 18));
    }
    if fault is WindowOverflow {
        let text = fault_text(fault);
        assert(text.subrange(13, 35) =~= "window extent overflow"@);
        assert(occurs_at(text, "window extent overflow"@, 13));
    }
    if fault is StdoutMissing {
        let text = fault_text(fault);
        assert(text.subrange(34, 47) =~= "expose stdout"@);
        assert(occurs_at(text, "expose stdout"@, 34));
    }
    if fault is StderrMissing {
        let text = fault_text(fault);
        assert(text.subrange(34, 47) =~= "expose stderr"@);
        assert(occurs_at(text, "expose stderr"@, 34));
    }
}

} // verus!
