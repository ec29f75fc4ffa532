//! Probing media in a helper process: the protocol between the helper and its parent.
//!
//! The helper owns every call that could block. The parent accepts one answer of one
//! version, and never takes a failure for a result.

use vstd::prelude::*;
use vstd::string::*;

use crate::path::MediaPath;
use crate::text::{
    contains_text, decimal, occurs_at, push_decimal, same_text, trim, trim_string, utf8_lossy,
    utf8_lossy_text,
};

verus! {

/// The mode of the application that answers as a helper.
pub const MEDIA_PROBE_WORKER_ARGUMENT: &'static str = "--internal-media-probe-worker-v1";

/// The version of the protocol.
pub const MEDIA_PROBE_PROTOCOL_VERSION: u32 = 1;

/// The longest answer that is accepted.
pub const MEDIA_PROBE_STDOUT_LIMIT_BYTES: usize = 8 * 1024 * 1024;

/// How much of what the helper reports is kept, at its end.
pub const MEDIA_PROBE_STDERR_LIMIT_BYTES: usize = 64 * 1024;

/// What the helper found out about one source.
#[derive(Debug, Clone, PartialEq, Eq)]
pub struct IsolatedMediaProbeSnapshot<F, P> {
    /// The path of the source as the helper resolved it.
    pub canonical_path: MediaPath,
    /// The revision of the source, the same before and after the probe.
    pub source_fingerprint: F,
    /// What the probe of that revision brought.
    pub probe: P,
}

/// How the helper ended its work.
#[derive(Debug)]
pub enum MediaProbeWorkerResult<T> {
    Completed {
        prepared: T,
    },
    Failed {
        detail: String,
    },
}

/// The answer of the helper.
#[derive(Debug)]
pub struct MediaProbeWorkerEnvelope<T> {
    pub schema_version: u32,
    pub result: MediaProbeWorkerResult<T>,
}

/// Why the supervision of the helper ended it.
#[derive(Debug, Clone, Copy, PartialEq, Eq, Structural)]
pub enum SupervisorCause {
    Canceled,
    DeadlineExceeded,
    /// It could not be started, its streams failed, or its answer was too long.
    Other,
}

/// Why there is no snapshot.
#[derive(Debug, PartialEq, Eq)]
pub enum IsolatedMediaProbeError {
    /// The supervision of the helper failed, or ended it.
    Supervisor {
        cause: SupervisorCause,
        text: String,
    },
    /// The helper failed before it answered.
    WorkerExit {
        status: String,
        detail: String,
    },
    /// The helper answered that it failed.
    ProbeFailed {
        detail: String,
    },
    /// The answer is missing, malformed or of another protocol.
    Protocol {
        detail: String,
    },
    /// The answer was sound, but whoever uses it refused its facts.
    SnapshotRejected {
        detail: String,
    },
}

/// The text of an error.
pub open spec fn probe_error_text(error: IsolatedMediaProbeError) -> Seq<char> {
    match error {
        IsolatedMediaProbeError::Supervisor { cause, text } => text@,
        IsolatedMediaProbeError::WorkerExit { status, detail } => {
            "media Probe Helper exited unsuccessfully ("@ + status@ + "): "@ + detail@
        },
        IsolatedMediaProbeError::ProbeFailed { detail } => {
            "media Probe Helper rejected the source: "@ + detail@
        },
        IsolatedMediaProbeError::Protocol { detail } => {
            "invalid media Probe Helper response: "@ + detail@
        },
        IsolatedMediaProbeError::SnapshotRejected { detail } => {
            "media Probe Helper snapshot was rejected: "@ + detail@
        },
    }
}

fn text_of(head: &str, detail: &str) -> (out: String)
    ensures
        out@ == head@ + detail@,
{
    let mut out = head.to_owned();
    out.append(detail);
    out
}

impl IsolatedMediaProbeError {
    /// Whether the helper was canceled.
    pub fn is_canceled(&self) -> (r: bool)
        ensures
            r == (*self matches IsolatedMediaProbeError::Supervisor { cause, .. }
                && cause is Canceled),
    {
        match self {
            IsolatedMediaProbeError::Supervisor { cause, .. } => match cause {
                SupervisorCause::Canceled => true,
                _ => false,
            },
            _ => false,
        }
    }

    /// Whether the helper ran out of time.
    pub fn is_deadline_exceeded(&self) -> (r: bool)
        ensures
            r == (*self matches IsolatedMediaProbeError::Supervisor { cause, .. }
                && cause is DeadlineExceeded),
    {
        match self {
            IsolatedMediaProbeError::Supervisor { cause, .. } => match cause {
                SupervisorCause::DeadlineExceeded => true,
                _ => false,
            },
            _ => false,
        }
    }

    /// The text of this error.
    pub fn message(&self) -> (text: String)
        ensures
            text@ == probe_error_text(*self),
    {
        match self {
            IsolatedMediaProbeError::Supervisor { text, .. } => text.as_str().to_owned(),
            IsolatedMediaProbeError::WorkerExit { status, detail } => {
                let mut text = text_of("media Probe Helper exited unsuccessfully (", status.as_str());
                text.append("): ");
                text.append(detail.as_str());
                text
            },
            IsolatedMediaProbeError::ProbeFailed { detail } => text_of(
                "media Probe Helper rejected the source: ",
                detail.as_str(),
            ),
            IsolatedMediaProbeError::Protocol { detail } => text_of(
                "invalid media Probe Helper response: ",
                detail.as_str(),
            ),
            IsolatedMediaProbeError::SnapshotRejected { detail } => text_of(
                "media Probe Helper snapshot was rejected: ",
                detail.as_str(),
            ),
        }
    }
}

/// What the parent tells of the report of a helper that failed.
pub open spec fn worker_detail(stderr: Seq<u8>) -> Seq<char> {
    let detail = trim(utf8_lossy_text(stderr));
    if detail.len() == 0 {
        "no stderr detail"@
    } else {
        detail
    }
}

/// What the parent tells of the report of a helper that failed.
pub fn bounded_worker_detail(stderr: &[u8]) -> (detail: String)
    ensures
        detail@ == worker_detail(stderr@),
{
    let text = utf8_lossy(stderr);
    trimmed_detail(text.as_str())
}

/// A report without the white space around it, or a remark that there is none.
pub fn trimmed_detail(report: &str) -> (detail: String)
    ensures
        detail@ == if trim(report@).len() == 0 {
            "no stderr detail"@
        } else {
            trim(report@)
        },
{
    let detail = trim_string(report);
    if same_text(detail.as_str(), "") {
        proof {
            reveal_strlit("");
        }
        "no stderr detail".to_owned()
    } else {
        proof {
            reveal_strlit("");
            if detail@.len() == 0 {
                assert(detail@ =~= ""@);
            }
        }
        detail
    }
}

/// Fails where the helper ended in failure: its answer is not looked at.
pub fn check_worker_exit(success: bool, status: String, stderr: &[u8]) -> (r: Result<
    (),
    IsolatedMediaProbeError,
>)
    ensures
        match r {
            Ok(()) => success,
            Err(error) => !success && (error matches IsolatedMediaProbeError::WorkerExit {
                status: reported,
                detail,
            } && reported == status && detail@ == worker_detail(stderr@)),
        },
{
    if success {
        Ok(())
    } else {
        Err(IsolatedMediaProbeError::WorkerExit { status, detail: bounded_worker_detail(stderr) })
    }
}

/// Whether an answer is taken apart into the given result.
pub open spec fn decodes_to<T>(
    response: Result<MediaProbeWorkerEnvelope<T>, String>,
    r: Result<T, IsolatedMediaProbeError>,
) -> bool {
    match response {
        Err(error) => r matches Err(IsolatedMediaProbeError::Protocol { detail }) && detail@
            == "response JSON is invalid: "@ + error@,
        Ok(envelope) => if envelope.schema_version != MEDIA_PROBE_PROTOCOL_VERSION {
            r matches Err(IsolatedMediaProbeError::Protocol { detail }) && detail@
                == "expected schema "@ + decimal(MEDIA_PROBE_PROTOCOL_VERSION as nat)
                + ", observed "@ + decimal(envelope.schema_version as nat)
        } else {
            match envelope.result {
                MediaProbeWorkerResult::Completed { prepared } => r == Ok::<
                    T,
                    IsolatedMediaProbeError,
                >(prepared),
                MediaProbeWorkerResult::Failed { detail } => r == Err::<
                    T,
                    IsolatedMediaProbeError,
                >(IsolatedMediaProbeError::ProbeFailed { detail }),
            }
        },
    }
}

/// Takes the answer of the helper apart, once it was read. `response` is the answer, or
/// why it could not be read.
pub fn decode_worker_response<T>(
    response: Result<MediaProbeWorkerEnvelope<T>, String>,
) -> (r: Result<T, IsolatedMediaProbeError>)
    ensures
        decodes_to(response, r),
{
    let envelope = match response {
        Ok(envelope) => envelope,
        Err(error) => {
            return Err(
                IsolatedMediaProbeError::Protocol {
                    detail: text_of("response JSON is invalid: ", error.as_str()),
                },
            );
        },
    };
    if envelope.schema_version != MEDIA_PROBE_PROTOCOL_VERSION {
        let mut detail = "expected schema ".to_owned();
        push_decimal(&mut detail, MEDIA_PROBE_PROTOCOL_VERSION as u64);
        detail.append(", observed ");
        push_decimal(&mut detail, envelope.schema_version as u64);
        return Err(IsolatedMediaProbeError::Protocol { detail });
    }
    match envelope.result {
        MediaProbeWorkerResult::Completed { prepared } => Ok(prepared),
        MediaProbeWorkerResult::Failed { detail } => Err(
            IsolatedMediaProbeError::ProbeFailed { detail },
        ),
    }
}

/// The answer to a probe that brought a snapshot or failed.
pub open spec fn spec_worker_response<T>(outcome: Result<T, String>) -> MediaProbeWorkerEnvelope<T> {
    MediaProbeWorkerEnvelope {
        schema_version: MEDIA_PROBE_PROTOCOL_VERSION,
        result: match outcome {
            Ok(prepared) => MediaProbeWorkerResult::Completed { prepared },
            Err(detail) => MediaProbeWorkerResult::Failed { detail },
        },
    }
}

/// The answer to a probe that brought a snapshot or failed.
pub fn worker_response<T>(outcome: Result<T, String>) -> (envelope: MediaProbeWorkerEnvelope<T>)
    ensures
        envelope == spec_worker_response(outcome),
{
    MediaProbeWorkerEnvelope {
        schema_version: MEDIA_PROBE_PROTOCOL_VERSION,
        result: match outcome {
            Ok(prepared) => MediaProbeWorkerResult::Completed { prepared },
            Err(detail) => MediaProbeWorkerResult::Failed { detail },
        },
    }
}

/// What the helper answers, the parent reads back: a snapshot as the same snapshot, and a
/// failure as a failure with the same detail.
pub proof fn answers_are_read_back<T>(
    outcome: Result<T, String>,
    r: Result<T, IsolatedMediaProbeError>,
)
    requires
        decodes_to(Ok(spec_worker_response(outcome)), r),
    ensures
        match outcome {
            Ok(prepared) => r == Ok::<T, IsolatedMediaProbeError>(prepared),
            Err(detail) => r == Err::<T, IsolatedMediaProbeError>(
                IsolatedMediaProbeError::ProbeFailed { detail },
            ),
        },
{
}

/// A snapshot comes only out of a sound answer of this version that holds it.
pub proof fn snapshots_are_not_made_up<T>(
    response: Result<MediaProbeWorkerEnvelope<T>, String>,
    snapshot: T,
)
    requires
        decodes_to(response, Ok(snapshot)),
    ensures
        response matches Ok(envelope) && envelope.schema_version == MEDIA_PROBE_PROTOCOL_VERSION
            && envelope.result == (MediaProbeWorkerResult::Completed { prepared: snapshot }),
{
}

/// Why the helper refuses its arguments.
#[derive(Debug, Clone, Copy, PartialEq, Eq, Structural)]
pub enum WorkerArgumentFault {
    Mode,
    MissingPath,
    Unexpected,
}

impl WorkerArgumentFault {
    /// The text of a fault.
    pub open spec fn spec_text(self) -> Seq<char> {
        match self {
            WorkerArgumentFault::Mode => "invalid internal media Probe Helper mode"@,
            WorkerArgumentFault::MissingPath => {
                "internal media Probe Helper requires one source path"@
            },
            WorkerArgumentFault::Unexpected => "unexpected media Probe Helper argument"@,
        }
    }

    /// The text of this fault.
    pub fn text(self) -> (r: &'static str)
        ensures
            r@ == self.spec_text(),
    {
        match self {
            WorkerArgumentFault::Mode => "invalid internal media Probe Helper mode",
            WorkerArgumentFault::MissingPath => {
                "internal media Probe Helper requires one source path"
            },
            WorkerArgumentFault::Unexpected => "unexpected media Probe Helper argument",
        }
    }
}

/// Checks the arguments of the helper: its mode, one path, and nothing else. `mode` is
/// the first argument where it is there and is text; `count` is how many arguments there
/// are.
pub fn check_worker_arguments(mode: Option<&str>, count: usize) -> (r: Result<(), WorkerArgumentFault>)
    ensures
        ({
            let named = mode matches Some(text) && text@ == MEDIA_PROBE_WORKER_ARGUMENT@;
            match r {
                Ok(()) => named && count == 2,
                Err(fault) => if !named {
                    fault is Mode
                } else if count < 2 {
                    fault is MissingPath
                } else {
                    fault is Unexpected && count > 2
                },
            }
        }),
        r is Ok ==> mode is Some && count == 2,
        count < 2 || count > 2 ==> r is Err,
        mode is None ==> r is Err && r->Err_0 is Mode,
{
    let named = match mode {
        Some(text) => same_text(text, MEDIA_PROBE_WORKER_ARGUMENT),
        None => false,
    };
    if !named {
        return Err(WorkerArgumentFault::Mode);
    }
    if count < 2 {
        return Err(WorkerArgumentFault::MissingPath);
    }
    if count > 2 {
        return Err(WorkerArgumentFault::Unexpected);
    }
    Ok(())
}

/// Checks, before a probe, that the revision of a source can be told at all.
pub fn begin_worker_probe(authorizes_reuse: bool) -> (r: Result<(), &'static str>)
    ensures
        match r {
            Ok(()) => authorizes_reuse,
            Err(reason) => !authorizes_reuse && reason@
                == "media source does not expose complete conservative revision evidence"@,
        },
{
    if authorizes_reuse {
        Ok(())
    } else {
        Err("media source does not expose complete conservative revision evidence")
    }
}

/// What a probe brought, unless the source changed meanwhile. `verified` tells whether
/// the revision after the probe can be told, and `unchanged` whether it is the one from
/// before.
pub fn finish_worker_probe<F, P>(
    canonical_path: MediaPath,
    source_fingerprint: F,
    probe: P,
    verified: bool,
    unchanged: bool,
) -> (r: Result<IsolatedMediaProbeSnapshot<F, P>, &'static str>)
    ensures
        match r {
            Ok(snapshot) => verified && unchanged && snapshot == (IsolatedMediaProbeSnapshot {
                canonical_path,
                source_fingerprint,
                probe,
            }),
            Err(reason) => !(verified && unchanged) && reason@
                == "media source changed while the isolated probe was running"@,
        },
        r is Ok <==> verified && unchanged,
        r is Ok ==> r->Ok_0.canonical_path == canonical_path && r->Ok_0.probe == probe
            && r->Ok_0.source_fingerprint == source_fingerprint,
{
    if verified && unchanged {
        Ok(IsolatedMediaProbeSnapshot { canonical_path, source_fingerprint, probe })
    } else {
        Err("media source changed while the isolated probe was running")
    }
}

/// Answers of every other version are refused, whatever they hold, and failures stay
/// failures.
pub proof fn other_versions_are_refused<T>(
    envelope: MediaProbeWorkerEnvelope<T>,
    r: Result<T, IsolatedMediaProbeError>,
)
    requires
        decodes_to(Ok(envelope), r),
    ensures
        envelope.schema_version != 1 ==> r is Err && r->Err_0 is Protocol,
        envelope.schema_version == 1 && envelope.result is Completed ==> r is Ok,
        envelope.schema_version == 1 && envelope.result is Failed ==> r is Err
            && r->Err_0 is ProbeFailed,
{
}

/// A report is told without the white space around it. Where nothing is left, that is told.
pub proof fn reports_are_told(stderr: Seq<u8>)
    ensures
        worker_detail(stderr).len() > 0,
        trim(utf8_lossy_text(stderr)).len() > 0 ==> worker_detail(stderr) == trim(
            utf8_lossy_text(stderr),
        ),
{
    reveal_strlit("no stderr detail");
}

/// The text of a fault names the argument that is wrong.
pub proof fn argument_faults_name_the_argument(fault: WorkerArgumentFault)
    ensures
        fault is Mode ==> contains_text(fault.spec_text(), "mode"@),
        fault is MissingPath ==> contains_text(fault.spec_text(), "requires one source path"@),
        fault is Unexpected ==> contains_text(fault.spec_text(), "unexpected"@),
{
    reveal_strlit("invalid internal media Probe Helper mode");
    reveal_strlit("mode");
    reveal_strlit("internal media Probe Helper requires one source path");
    reveal_strlit("requires one source path");
    reveal_strlit("unexpected media Probe Helper argument");
    reveal_strlit("unexpected");
    if fault is Mode {
        let text = fault.spec_text();
        assert(text.subrange(36, 40) =~= "mode"@);
        assert(occurs_at(text, "mode"@, 36));
    }
    if fault is MissingPath {
        let text = fault.spec_text();
        assert(text.subrange(28, 52) =~= "requires one source path"@);
        assert(occurs_at(text, "requires one source path"@, 28));
    }
    if fault is Unexpected {
        let text = fault.spec_text();
        assert(text.subrange(0, 10) =~= "unexpected"@);
        assert(occurs_at(text, "unexpected"@, 0));
    }
}

} // verus!
