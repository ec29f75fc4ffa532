//! Construction and consuming shutdown of a decoder: what its worker publishes, and what
//! the terminal receipt says.

use crate::audio_source::evidence::{
    abandoned, doubts_persist, merged, no_evidence, no_startup, one_if, AudioDecoderStartupShutdownEvidence,
    AudioWindowDecoderShutdownEvidence,
};
use crate::audio_source::fault::{imposed_fault, DecodeFault, Surroundings};
use crate::audio_source::startup::{settled_lanes_are_released, StartupLane};
use crate::audio_source::teardown::{fresh_worker, teardown_run, TeardownEvent};
use vstd::prelude::*;

verus! {

/// What starting the teardown worker brought.
#[derive(Debug, Clone, Copy, PartialEq, Eq, Structural)]
pub enum WorkerSpawn {
    Started,
    /// The system refused. The error was disposed, or abandoned as its type is unknown.
    Refused { error_abandoned: bool },
    /// The attempt panicked. The payload was disposed, or abandoned.
    Panicked { payload_abandoned: bool },
}

/// What a decoder publishes at once where it has no teardown worker.
pub open spec fn spawn_publication(spawn: WorkerSpawn) -> Option<AudioWindowDecoderShutdownEvidence> {
    match spawn {
        WorkerSpawn::Started => None,
        WorkerSpawn::Refused { error_abandoned } => Some(
            AudioWindowDecoderShutdownEvidence {
                shutdown_worker_start_failures: 1,
                shutdown_worker_owner_abandonments: one_if(error_abandoned),
                ..no_evidence()
            },
        ),
        WorkerSpawn::Panicked { payload_abandoned } => Some(
            AudioWindowDecoderShutdownEvidence {
                shutdown_worker_start_failures: 1,
                shutdown_worker_panics: 1,
                shutdown_worker_owner_abandonments: one_if(payload_abandoned),
                ..no_evidence()
            },
        ),
    }
}

/// What becomes of a decoder when one of its workers was to be started.
#[derive(Debug, Clone, Copy, PartialEq, Eq, Structural)]
pub struct SpawnVerdict {
    /// What it publishes at once.
    pub publication: Option<AudioWindowDecoderShutdownEvidence>,
    /// Whether it is faulted: no session may be opened.
    pub faulted: bool,
    /// Whether it asks itself to shut down.
    pub request_shutdown: bool,
}

/// The verdict on a decoder whose teardown worker was to be started: without that worker
/// it publishes so, is faulted and asks itself to shut down.
pub open spec fn teardown_verdict(spawn: WorkerSpawn) -> SpawnVerdict {
    SpawnVerdict {
        publication: spawn_publication(spawn),
        faulted: !(spawn is Started),
        request_shutdown: !(spawn is Started),
    }
}

/// The verdict on a decoder whose startup worker was to be started: without that worker it
/// is faulted and asks itself to shut down. The lane keeps the evidence.
pub open spec fn startup_verdict(spawn: WorkerSpawn) -> SpawnVerdict {
    SpawnVerdict {
        publication: None,
        faulted: !(spawn is Started),
        request_shutdown: !(spawn is Started),
    }
}

/// The verdict on a decoder whose teardown worker was to be started.
pub fn publish_spawn(spawn: WorkerSpawn) -> (verdict: SpawnVerdict)
    ensures
        verdict == teardown_verdict(spawn),
        verdict.request_shutdown == verdict.faulted,
        verdict.faulted == !(spawn is Started),
        verdict.publication == spawn_publication(spawn),
{
    let mut evidence = AudioWindowDecoderShutdownEvidence::default();
    evidence.shutdown_worker_start_failures = 1;
    let publication = match spawn {
        WorkerSpawn::Started => None,
        WorkerSpawn::Refused { error_abandoned } => {
            if error_abandoned {
                evidence.shutdown_worker_owner_abandonments = 1;
            }
            Some(evidence)
        },
        WorkerSpawn::Panicked { payload_abandoned } => {
            evidence.shutdown_worker_panics = 1;
            if payload_abandoned {
                evidence.shutdown_worker_owner_abandonments = 1;
            }
            Some(evidence)
        },
    };
    let failed = publication.is_some();
    SpawnVerdict { publication, faulted: failed, request_shutdown: failed }
}

/// A decoder lacking one of its workers refuses every reader: the surroundings that the
/// two verdicts leave impose a failure, whether or not the reader was canceled.
pub proof fn unsupervised_decoders_refuse(
    teardown: WorkerSpawn,
    startup: WorkerSpawn,
    canceled: bool,
)
    requires
        !(teardown is Started && startup is Started),
    ensures
        imposed_fault(
            Surroundings {
                canceled,
                shutdown: teardown_verdict(teardown).request_shutdown || startup_verdict(
                    startup,
                ).request_shutdown,
                faulted: teardown_verdict(teardown).faulted || startup_verdict(startup).faulted,
            },
        ) == Some(DecodeFault::Canceled),
{
}

/// How the teardown worker came to its end.
#[derive(Debug, Clone, Copy, PartialEq, Eq, Structural)]
pub enum WorkerRun {
    Completed(AudioWindowDecoderShutdownEvidence),
    /// It panicked. What it should have retired is left: owners in the queue and sessions
    /// in the table. Others were retired elsewhere.
    Panicked {
        payload_abandoned: bool,
        owners: usize,
        sessions: usize,
        retired: AudioWindowDecoderShutdownEvidence,
    },
}

/// State that the teardown worker publishes of itself.
#[derive(Debug, Clone, Copy, PartialEq, Eq, Structural)]
pub enum WorkerTerminal {
    NotStarted,
    Running,
    Completed,
    Panicked,
}

/// Evidence of a worker that panicked: it counts as a panic and a handle, and everything
/// it did not retire is abandoned.
pub open spec fn panic_evidence(
    payload_abandoned: bool,
    owners: usize,
    sessions: usize,
    retired: AudioWindowDecoderShutdownEvidence,
) -> AudioWindowDecoderShutdownEvidence {
    let lost = AudioWindowDecoderShutdownEvidence {
        shutdown_worker_panics: 1,
        shutdown_worker_owner_abandonments: one_if(payload_abandoned),
        resource_handles_remaining: 1,
        ..no_evidence()
    };
    merged(
        abandoned(
            AudioWindowDecoderShutdownEvidence {
                sessions_before: sessions,
                ..abandoned(lost, owners)
            },
            sessions,
        ),
        retired,
    )
}

/// What the teardown worker publishes when it ends.
pub open spec fn worker_publication(run: WorkerRun) -> AudioWindowDecoderShutdownEvidence {
    let evidence = match run {
        WorkerRun::Completed(evidence) => evidence,
        WorkerRun::Panicked { payload_abandoned, owners, sessions, retired } => panic_evidence(
            payload_abandoned,
            owners,
            sessions,
            retired,
        ),
    };
    AudioWindowDecoderShutdownEvidence {
        shutdown_workers_started: evidence.shutdown_workers_started.saturating_add(1),
        ..evidence
    }
}

/// What becomes of a decoder whose teardown worker ended.
#[derive(Debug, Clone, Copy, PartialEq, Eq, Structural)]
pub struct WorkerVerdict {
    /// What is published.
    pub evidence: AudioWindowDecoderShutdownEvidence,
    pub terminal: WorkerTerminal,
    /// Whether the decoder is faulted: it opens no session any more.
    pub faulted: bool,
}

/// The verdict on a decoder whose teardown worker ended: a panic faults it.
pub open spec fn worker_verdict(run: WorkerRun) -> WorkerVerdict {
    WorkerVerdict {
        evidence: worker_publication(run),
        terminal: if run is Completed {
            WorkerTerminal::Completed
        } else {
            WorkerTerminal::Panicked
        },
        faulted: run is Panicked,
    }
}

/// Whether the end of the startup worker faults its decoder: a panic does.
pub open spec fn startup_end_faults(panic: Option<bool>) -> bool {
    panic is Some
}

/// A decoder that lost a worker to a panic refuses every reader, whether or not the reader
/// was canceled and whether or not shutdown was requested. One that is neither canceled
/// nor shut down is told that teardown is unavailable.
pub proof fn panicked_workers_refuse(
    teardown: Option<WorkerRun>,
    startup_ended: bool,
    startup_panic: Option<bool>,
    canceled: bool,
    shutdown: bool,
)
    requires
        (teardown matches Some(run) && run is Panicked) || (startup_ended && startup_panic is Some),
    ensures
        ({
            let faulted = (teardown matches Some(run) && worker_verdict(run).faulted) || (
            startup_ended && startup_end_faults(startup_panic));
            imposed_fault(Surroundings { canceled, shutdown, faulted }) == Some(
                if canceled || shutdown {
                    DecodeFault::Canceled
                } else {
                    DecodeFault::TeardownUnavailable
                },
            )
        }),
{
}

/// The verdict on a decoder whose teardown worker ended. After a panic no session may be
/// opened any more.
pub fn publish_worker(run: WorkerRun) -> (verdict: WorkerVerdict)
    ensures
        verdict == worker_verdict(run),
        verdict.evidence == worker_publication(run),
        verdict.faulted == (run is Panicked),
{
    let (mut evidence, faulted) = match run {
        WorkerRun::Completed(evidence) => (evidence, false),
        WorkerRun::Panicked { payload_abandoned, owners, sessions, retired } => {
            let mut evidence = AudioWindowDecoderShutdownEvidence::default();
            evidence.shutdown_worker_panics = 1;
            if payload_abandoned {
                evidence.shutdown_worker_owner_abandonments = 1;
            }
            evidence.resource_handles_remaining = 1;
            evidence.abandon_owners(owners);
            evidence.sessions_before = evidence.sessions_before.saturating_add(sessions);
            evidence.abandon_owners(sessions);
            evidence.merge(retired);
            (evidence, true)
        },
    };
    evidence.shutdown_workers_started = evidence.shutdown_workers_started.saturating_add(1);
    let terminal = if faulted {
        WorkerTerminal::Panicked
    } else {
        WorkerTerminal::Completed
    };
    WorkerVerdict { evidence, terminal, faulted }
}

/// What joining the teardown worker brought.
#[derive(Debug, Clone, Copy, PartialEq, Eq, Structural)]
pub enum WorkerJoin {
    /// There is none, or an earlier shutdown joined it.
    Absent,
    /// Shutdown was called from the worker itself, which cannot join itself.
    CurrentThread,
    Joined,
    /// It ended by a panic. The payload was disposed, or abandoned.
    Panicked { payload_abandoned: bool },
}

/// What a consuming shutdown finds.
#[derive(Debug, Clone, Copy, PartialEq, Eq, Structural)]
pub struct ShutdownFindings {
    /// What was published before.
    pub published: Option<AudioWindowDecoderShutdownEvidence>,
    pub startup: AudioDecoderStartupShutdownEvidence,
    pub join: WorkerJoin,
    pub terminal: WorkerTerminal,
    /// Owners in the queue after the worker ended.
    pub owners: usize,
    /// Sessions in the table after the worker ended.
    pub sessions: usize,
    /// What was retired elsewhere.
    pub retired: AudioWindowDecoderShutdownEvidence,
    /// Permits in use when shutdown began, and at its end.
    pub permits_before: usize,
    pub permits_remaining: usize,
}

/// The larger of two counts.
pub open spec fn at_least(count: usize, floor: usize) -> usize {
    if count < floor {
        floor
    } else {
        count
    }
}

/// What was published, with the joined worker counted in. A worker that did not publish
/// its end leaves a handle. One that joins itself is a panic, and leaves a handle.
pub open spec fn with_worker(findings: ShutdownFindings) -> AudioWindowDecoderShutdownEvidence {
    let published = match findings.published {
        Some(evidence) => evidence,
        None => no_evidence(),
    };
    let joined = findings.join is Joined || findings.join is Panicked;
    let silent = joined && !(findings.terminal is Completed || findings.terminal is Panicked);
    let detached = findings.join is CurrentThread;
    let panicked = detached || findings.join is Panicked;
    AudioWindowDecoderShutdownEvidence {
        startup: findings.startup,
        shutdown_workers_terminated: published.shutdown_workers_terminated.saturating_add(
            one_if(joined),
        ),
        shutdown_worker_publication_missing: published.shutdown_worker_publication_missing.saturating_add(
        one_if(silent)),
        resource_handles_remaining: published.resource_handles_remaining.saturating_add(
            one_if(silent || detached) as usize,
        ),
        shutdown_worker_panics: published.shutdown_worker_panics.saturating_add(one_if(panicked)),
        shutdown_worker_owner_abandonments: published.shutdown_worker_owner_abandonments.saturating_add(
            one_if(findings.join == (WorkerJoin::Panicked { payload_abandoned: true })),
        ),
        ..published
    }
}

/// The terminal receipt. Owners and sessions that are left are abandoned; an owner in the
/// queue is left alone where the worker still runs. Permits in use are sessions.
pub open spec fn receipt(findings: ShutdownFindings) -> AudioWindowDecoderShutdownEvidence {
    let worker = with_worker(findings);
    let drained = if findings.join is CurrentThread {
        worker
    } else {
        abandoned(worker, findings.owners)
    };
    let emptied = abandoned(
        AudioWindowDecoderShutdownEvidence {
            sessions_before: drained.sessions_before.saturating_add(findings.sessions),
            ..drained
        },
        findings.sessions,
    );
    let all = merged(emptied, findings.retired);
    AudioWindowDecoderShutdownEvidence {
        sessions_before: at_least(all.sessions_before, findings.permits_before),
        sessions_remaining: at_least(all.sessions_remaining, findings.permits_remaining),
        resource_handles_remaining: at_least(
            all.resource_handles_remaining,
            findings.permits_remaining,
        ),
        ..all
    }
}

/// The terminal receipt of a consuming shutdown. It becomes what is published.
pub fn shutdown_sessions(findings: ShutdownFindings) -> (r: AudioWindowDecoderShutdownEvidence)
    ensures
        r == receipt(findings),
{
    let mut evidence = match findings.published {
        Some(evidence) => evidence,
        None => AudioWindowDecoderShutdownEvidence::default(),
    };
    evidence.startup = findings.startup;
    let (joined, detached, panicked, payload_abandoned) = match findings.join {
        WorkerJoin::Absent => (false, false, false, false),
        WorkerJoin::CurrentThread => (false, true, true, false),
        WorkerJoin::Joined => (true, false, false, false),
        WorkerJoin::Panicked { payload_abandoned } => (true, false, true, payload_abandoned),
    };
    if joined {
        evidence.shutdown_workers_terminated =
            evidence.shutdown_workers_terminated.saturating_add(1);
        if findings.terminal != WorkerTerminal::Completed && findings.terminal
            != WorkerTerminal::Panicked {
            evidence.shutdown_worker_publication_missing =
                evidence.shutdown_worker_publication_missing.saturating_add(1);
            evidence.resource_handles_remaining =
                evidence.resource_handles_remaining.saturating_add(1);
        }
    }
    if panicked {
        evidence.shutdown_worker_panics = evidence.shutdown_worker_panics.saturating_add(1);
    }
    if detached {
        evidence.resource_handles_remaining = evidence.resource_handles_remaining.saturating_add(1);
    }
    if payload_abandoned {
        evidence.shutdown_worker_owner_abandonments =
            evidence.shutdown_worker_owner_abandonments.saturating_add(1);
    }
    assert(evidence == with_worker(findings));
    if !detached {
        evidence.abandon_owners(findings.owners);
    }
    evidence.sessions_before = evidence.sessions_before.saturating_add(findings.sessions);
    evidence.abandon_owners(findings.sessions);
    evidence.merge(findings.retired);
    if evidence.sessions_before < findings.permits_before {
        evidence.sessions_before = findings.permits_before;
    }
    if evidence.sessions_remaining < findings.permits_remaining {
        evidence.sessions_remaining = findings.permits_remaining;
    }
    if evidence.resource_handles_remaining < findings.permits_remaining {
        evidence.resource_handles_remaining = findings.permits_remaining;
    }
    evidence
}

/// A shutdown that follows another one, after which nothing is left, gives the same
/// receipt again.
pub proof fn followers_see_the_same_receipt(first: ShutdownFindings, second: ShutdownFindings)
    requires
        second.published == Some(receipt(first)),
        second.startup == first.startup,
        second.join is Absent,
        second.owners == 0,
        second.sessions == 0,
        second.retired == no_evidence(),
        second.permits_before <= first.permits_before,
        second.permits_remaining <= first.permits_remaining,
    ensures
        receipt(second) == receipt(first),
{
}

/// Whether an act of the teardown worker found nothing to do.
pub open spec fn finds_nothing(event: TeardownEvent) -> bool {
    match event {
        TeardownEvent::Retired { evidence, .. } => evidence == no_evidence(),
        TeardownEvent::IdleSwept { sessions, evidence } => sessions == 0 && evidence
            == no_evidence(),
        TeardownEvent::Producers { .. } => true,
        TeardownEvent::EntriesTaken { sessions, retired } => sessions == 0 && retired
            == no_evidence(),
        TeardownEvent::EntriesClosed { evidence } => evidence == no_evidence(),
        TeardownEvent::Drained { evidence } => evidence == no_evidence(),
    }
}

proof fn lemma_nothing_found(events: Seq<TeardownEvent>)
    requires
        teardown_run(fresh_worker(), events) is Some,
        forall|i: int| 0 <= i < events.len() ==> finds_nothing(#[trigger] events[i]),
    ensures
        teardown_run(fresh_worker(), events)->0.evidence == no_evidence(),
    decreases events.len(),
{
    if events.len() > 0 {
        let head = events.drop_last();
        assert forall|i: int| 0 <= i < head.len() implies finds_nothing(#[trigger] head[i]) by {
            assert(head[i] == events[i]);
        }
        lemma_nothing_found(head);
        assert(finds_nothing(events[events.len() - 1]));
        assert(merged(no_evidence(), no_evidence()) == no_evidence());
    }
}

/// A decoder that was never used closes exactly: its teardown worker, which finds nothing
/// to do, counts as one started and one terminated, its startup lane admitted nothing, and
/// all resources are released. Every later caller gets the same receipt.
pub proof fn fresh_decoders_close_exactly(
    events: Seq<TeardownEvent>,
    lane: StartupLane,
    first: ShutdownFindings,
    second: ShutdownFindings,
)
    requires
        teardown_run(fresh_worker(), events) matches Some(worker) && worker.phase is Finished
            && first.published == Some(worker_publication(WorkerRun::Completed(worker.evidence))),
        forall|i: int| 0 <= i < events.len() ==> finds_nothing(#[trigger] events[i]),
        lane.wf(),
        lane.finished(),
        lane.inventory() == (AudioDecoderStartupShutdownEvidence {
            required: true,
            attempted: true,
            workers_started: 1,
            workers_joined: 1,
            ..no_startup()
        }),
        first.startup == lane.inventory(),
        first.join is Joined,
        first.terminal is Completed,
        first.owners == 0,
        first.sessions == 0,
        first.retired == no_evidence(),
        first.permits_before == 0,
        first.permits_remaining == 0,
        second.published == Some(receipt(first)),
        second.startup == first.startup,
        second.join is Absent,
        second.owners == 0,
        second.sessions == 0,
        second.retired == no_evidence(),
        second.permits_before == 0,
        second.permits_remaining == 0,
    ensures
        receipt(first).shutdown_workers_started == 1,
        receipt(first).shutdown_workers_terminated == 1,
        receipt(first).released(),
        receipt(second) == receipt(first),
{
    lemma_nothing_found(events);
    settled_lanes_are_released(lane);
    followers_see_the_same_receipt(first, second);
}

/// A receipt is clean only where the worker was joined in good order or not at all, its
/// publication and all that was retired elsewhere are clean, nothing was left, and no
/// permit is in use.
pub proof fn clean_receipts_hide_nothing(findings: ShutdownFindings)
    requires
        receipt(findings).clean(),
    ensures
        findings.published matches Some(published) ==> published.clean(),
        findings.retired.clean(),
        findings.join is Absent || findings.join is Joined,
        findings.join is Joined ==> findings.terminal is Completed || findings.terminal is Panicked,
        findings.owners == 0,
        findings.sessions == 0,
        findings.permits_remaining == 0,
{
    let worker = with_worker(findings);
    let drained = if findings.join is CurrentThread {
        worker
    } else {
        abandoned(worker, findings.owners)
    };
    let emptied = abandoned(
        AudioWindowDecoderShutdownEvidence {
            sessions_before: drained.sessions_before.saturating_add(findings.sessions),
            ..drained
        },
        findings.sessions,
    );
    doubts_persist(emptied, findings.retired);
}

/// A decoder whose teardown worker did not start, or panicked, never shows a clean receipt.
pub proof fn lost_workers_show(findings: ShutdownFindings, spawn: WorkerSpawn, run: WorkerRun)
    requires
        findings.published == spawn_publication(spawn) && !(spawn is Started)
            || findings.published == Some(worker_publication(run)) && run is Panicked,
    ensures
        !receipt(findings).clean(),
{
    if receipt(findings).clean() {
        clean_receipts_hide_nothing(findings);
        if run is Panicked && findings.published == Some(worker_publication(run)) {
            assert(worker_publication(run).shutdown_worker_panics >= 1);
        }
    }
}

/// A worker that could not be started is published as one start failure, and as a panic
/// where it was one. One that was started publishes nothing yet.
pub proof fn failed_starts_show(spawn: WorkerSpawn)
    ensures
        spawn_publication(spawn) is None <==> spawn is Started,
        spawn_publication(spawn) matches Some(evidence) ==> {
            &&& !evidence.clean()
            &&& evidence.shutdown_worker_start_failures == 1
            &&& evidence.shutdown_worker_panics == if spawn is Panicked {
                1int
            } else {
                0
            }
            &&& evidence.shutdown_worker_owner_abandonments == if spawn
                == (WorkerSpawn::Refused { error_abandoned: true }) || spawn
                == (WorkerSpawn::Panicked { payload_abandoned: true }) {
                1int
            } else {
                0
            }
            &&& evidence.sessions_remaining == 0
            &&& evidence.shutdown_workers_started == 0
        },
{
}

/// A worker that ended is counted as one that was started. One that ended by a panic leaves
/// its own handle and everything that it looked after: the owners in the queue and the
/// sessions in the table.
pub proof fn panicked_workers_leave_everything(
    payload_abandoned: bool,
    owners: usize,
    sessions: usize,
    retired: AudioWindowDecoderShutdownEvidence,
)
    requires
        owners + sessions + retired.sessions_remaining <= usize::MAX,
        1 + owners + sessions + retired.resource_handles_remaining <= usize::MAX,
        sessions + retired.sessions_before <= usize::MAX,
        retired.shutdown_workers_started < u32::MAX,
    ensures
        ({
            let after = worker_publication(
                WorkerRun::Panicked { payload_abandoned, owners, sessions, retired },
            );
            &&& !after.clean()
            &&& after.sessions_before == sessions + retired.sessions_before
            &&& after.sessions_remaining == owners + sessions + retired.sessions_remaining
            &&& after.resource_handles_remaining == 1 + owners + sessions
                + retired.resource_handles_remaining
            &&& after.shutdown_worker_panics > 0
            &&& after.shutdown_workers_started == retired.shutdown_workers_started + 1
        }),
{
}

/// The publication of a worker that completed is what it found, with itself counted.
pub proof fn completed_workers_publish_what_they_found(evidence: AudioWindowDecoderShutdownEvidence)
    requires
        evidence.shutdown_workers_started < u32::MAX,
    ensures
        ({
            let after = worker_publication(WorkerRun::Completed(evidence));
            &&& after.shutdown_workers_started == evidence.shutdown_workers_started + 1
            &&& after.clean() == evidence.clean()
            &&& after.sessions_before == evidence.sessions_before
            &&& after.child_processes_observed == evidence.child_processes_observed
            &&& after.startup == evidence.startup
        }),
{
}

/// The receipt counts what is left: sessions that were published as remaining, owners in the
/// queue of a worker that is gone, sessions in the table and those retired elsewhere, and no
/// fewer than permits are in use. A joined worker is counted once as terminated.
pub proof fn receipts_count_what_is_left(findings: ShutdownFindings)
    requires
        findings.published is Some,
        findings.published->0.sessions_remaining + findings.owners + findings.sessions
            + findings.retired.sessions_remaining <= usize::MAX,
        findings.published->0.sessions_before + findings.sessions
            + findings.retired.sessions_before <= usize::MAX,
        findings.published->0.shutdown_workers_terminated
            + findings.retired.shutdown_workers_terminated < u32::MAX,
    ensures
        ({
            let published = findings.published->0;
            let after = receipt(findings);
            let left = published.sessions_remaining + (if findings.join is CurrentThread {
                0
            } else {
                findings.owners as int
            }) + findings.sessions + findings.retired.sessions_remaining;
            let before = published.sessions_before + findings.sessions
                + findings.retired.sessions_before;
            &&& after.sessions_remaining >= left
            &&& after.sessions_remaining >= findings.permits_remaining
            &&& after.sessions_remaining == left || after.sessions_remaining
                == findings.permits_remaining
            &&& after.sessions_before >= before
            &&& after.sessions_before >= findings.permits_before
            &&& after.sessions_before == before || after.sessions_before == findings.permits_before
            &&& after.resource_handles_remaining >= findings.permits_remaining
            &&& after.startup == findings.startup
            &&& after.shutdown_workers_terminated == published.shutdown_workers_terminated
                + findings.retired.shutdown_workers_terminated + (if findings.join is Joined
                || findings.join is Panicked {
                1int
            } else {
                0
            })
        }),
{
}

} // verus!
