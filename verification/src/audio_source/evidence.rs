//! Evidence of what became of decoder sessions: their processes, pump threads, owners
//! and workers.

use vstd::prelude::*;

verus! {

/// Startup worker and request inventory at consuming shutdown.
#[derive(Debug, Clone, Copy, PartialEq, Eq, Structural)]
pub struct AudioDecoderStartupShutdownEvidence {
    /// Whether this decoder requires the native startup lane.
    pub required: bool,
    /// Whether startup worker creation was attempted.
    pub attempted: bool,
    /// Startup workers whose handles were returned.
    pub workers_started: u32,
    /// Startup workers joined by consuming shutdown.
    pub workers_joined: u32,
    /// Worker creation failures; there is no synchronous fallback.
    pub start_failures: u32,
    /// Startup execution or supervision panics.
    pub panics: u32,
    /// Joined workers without a terminal publication.
    pub publication_missing: u32,
    /// Foreign errors, panic payloads or owners deliberately abandoned.
    pub owner_abandonments: u32,
    /// Native owners whose state could not be verified after a panic.
    pub unverified_native_owners: usize,
    /// Requests accepted by the startup lane.
    pub requests_admitted: u64,
    /// Results transferred to the reader for install or explicit retirement.
    pub requests_claimed: u64,
    /// Unclaimed requests disposed by their owning completion.
    pub requests_retired: u64,
    /// Requests canceled before native process creation was attempted.
    pub canceled_before_spawn: u64,
    /// Queued requests still owned at observation.
    pub queued_remaining: usize,
    /// Native startup operations still in flight at observation.
    pub in_flight_remaining: usize,
    /// Published results still awaiting claim or disposal at observation.
    pub unclaimed_results_remaining: usize,
    /// Request producer leases not yet installed or retired.
    pub producers_remaining: usize,
}

impl Default for AudioDecoderStartupShutdownEvidence {
    fn default() -> (r: AudioDecoderStartupShutdownEvidence)
        ensures
            r == no_startup(),
    {
        AudioDecoderStartupShutdownEvidence {
            required: false,
            attempted: false,
            workers_started: 0,
            workers_joined: 0,
            start_failures: 0,
            panics: 0,
            publication_missing: 0,
            owner_abandonments: 0,
            unverified_native_owners: 0,
            requests_admitted: 0,
            requests_claimed: 0,
            requests_retired: 0,
            canceled_before_spawn: 0,
            queued_remaining: 0,
            in_flight_remaining: 0,
            unclaimed_results_remaining: 0,
            producers_remaining: 0,
        }
    }
}

/// The inventory of a decoder without a startup lane.
pub open spec fn no_startup() -> AudioDecoderStartupShutdownEvidence {
    AudioDecoderStartupShutdownEvidence {
        required: false,
        attempted: false,
        workers_started: 0,
        workers_joined: 0,
        start_failures: 0,
        panics: 0,
        publication_missing: 0,
        owner_abandonments: 0,
        unverified_native_owners: 0,
        requests_admitted: 0,
        requests_claimed: 0,
        requests_retired: 0,
        canceled_before_spawn: 0,
        queued_remaining: 0,
        in_flight_remaining: 0,
        unclaimed_results_remaining: 0,
        producers_remaining: 0,
    }
}

impl AudioDecoderStartupShutdownEvidence {
    /// Whether the worker that is required, and none that is not, was started and joined.
    pub open spec fn worker_closed(&self) -> bool {
        if self.required {
            self.attempted && self.workers_started == 1 && self.workers_joined == 1
        } else {
            !self.attempted && self.workers_started == 0 && self.workers_joined == 0
                && self.requests_admitted == 0
        }
    }

    /// Whether nothing failed, and nothing was left without an owner.
    pub open spec fn without_failures(&self) -> bool {
        &&& self.start_failures == 0
        &&& self.panics == 0
        &&& self.publication_missing == 0
        &&& self.owner_abandonments == 0
        &&& self.unverified_native_owners == 0
    }

    /// Whether every admitted request was either claimed or retired.
    pub open spec fn requests_accounted(&self) -> bool {
        &&& self.requests_claimed + self.requests_retired == self.requests_admitted
        &&& self.canceled_before_spawn <= self.requests_admitted
    }

    /// Whether no request is at any stage any more.
    pub open spec fn nothing_remains(&self) -> bool {
        &&& self.queued_remaining == 0
        &&& self.in_flight_remaining == 0
        &&& self.unclaimed_results_remaining == 0
        &&& self.producers_remaining == 0
    }

    /// Whether the required worker and all admitted request owners closed exactly.
    pub open spec fn released(&self) -> bool {
        &&& self.worker_closed()
        &&& self.without_failures()
        &&& self.requests_accounted()
        &&& self.nothing_remains()
    }

    /// Whether the required worker and all admitted request owners closed exactly.
    pub fn all_resources_released(&self) -> (r: bool)
        ensures
            r == self.released(),
    {
        let worker_closed = if self.required {
            self.attempted && self.workers_started == 1 && self.workers_joined == 1
        } else {
            !self.attempted && self.workers_started == 0 && self.workers_joined == 0
                && self.requests_admitted == 0
        };
        worker_closed && self.start_failures == 0 && self.panics == 0 && self.publication_missing
            == 0 && self.owner_abandonments == 0 && self.unverified_native_owners == 0
            && self.requests_claimed <= self.requests_admitted && self.requests_retired
            == self.requests_admitted - self.requests_claimed && self.canceled_before_spawn
            <= self.requests_retired + self.requests_claimed && self.queued_remaining == 0
            && self.in_flight_remaining == 0 && self.unclaimed_results_remaining == 0
            && self.producers_remaining == 0
    }
}

/// What consuming shutdown observed of all sessions of a decoder. Counters saturate.
#[derive(Debug, Clone, Copy, PartialEq, Eq, Structural)]
pub struct AudioWindowDecoderShutdownEvidence {
    /// Sessions owned when shutdown began.
    pub sessions_before: usize,
    /// Sessions that could not be retired.
    pub sessions_remaining: usize,
    /// References to session slots held elsewhere.
    pub external_session_slot_references: usize,
    /// Resource handles that could not be released.
    pub resource_handles_remaining: usize,
    pub child_processes_observed: u32,
    pub child_processes_terminated: u32,
    pub child_process_termination_failures: u32,
    pub stdout_pump_threads_observed: u32,
    pub stdout_pump_threads_joined: u32,
    pub stdout_pump_threads_panicked: u32,
    pub stdout_pump_thread_owner_abandonments: u32,
    pub stderr_pump_threads_observed: u32,
    pub stderr_pump_threads_joined: u32,
    pub stderr_pump_threads_panicked: u32,
    pub stderr_pump_thread_owner_abandonments: u32,
    pub shutdown_workers_started: u32,
    pub shutdown_workers_terminated: u32,
    pub shutdown_worker_start_failures: u32,
    pub shutdown_worker_panics: u32,
    pub shutdown_worker_publication_missing: u32,
    pub shutdown_worker_owner_abandonments: u32,
    /// Inventory of the startup lane.
    pub startup: AudioDecoderStartupShutdownEvidence,
}

/// Evidence of nothing at all.
pub open spec fn no_evidence() -> AudioWindowDecoderShutdownEvidence {
    AudioWindowDecoderShutdownEvidence {
        sessions_before: 0,
        sessions_remaining: 0,
        external_session_slot_references: 0,
        resource_handles_remaining: 0,
        child_processes_observed: 0,
        child_processes_terminated: 0,
        child_process_termination_failures: 0,
        stdout_pump_threads_observed: 0,
        stdout_pump_threads_joined: 0,
        stdout_pump_threads_panicked: 0,
        stdout_pump_thread_owner_abandonments: 0,
        stderr_pump_threads_observed: 0,
        stderr_pump_threads_joined: 0,
        stderr_pump_threads_panicked: 0,
        stderr_pump_thread_owner_abandonments: 0,
        shutdown_workers_started: 0,
        shutdown_workers_terminated: 0,
        shutdown_worker_start_failures: 0,
        shutdown_worker_panics: 0,
        shutdown_worker_publication_missing: 0,
        shutdown_worker_owner_abandonments: 0,
        startup: no_startup(),
    }
}

/// Two observations together: every counter is their sum, as far as it can be counted.
/// The startup inventory is that of the first.
pub open spec fn merged(
    a: AudioWindowDecoderShutdownEvidence,
    b: AudioWindowDecoderShutdownEvidence,
) -> AudioWindowDecoderShutdownEvidence {
    AudioWindowDecoderShutdownEvidence {
        sessions_before: a.sessions_before.saturating_add(b.sessions_before),
        sessions_remaining: a.sessions_remaining.saturating_add(b.sessions_remaining),
        external_session_slot_references: a.external_session_slot_references.saturating_add(
            b.external_session_slot_references,
        ),
        resource_handles_remaining: a.resource_handles_remaining.saturating_add(
            b.resource_handles_remaining,
        ),
        child_processes_observed: a.child_processes_observed.saturating_add(
            b.child_processes_observed,
        ),
        child_processes_terminated: a.child_processes_terminated.saturating_add(
            b.child_processes_terminated,
        ),
        child_process_termination_failures: a.child_process_termination_failures.saturating_add(
            b.child_process_termination_failures,
        ),
        stdout_pump_threads_observed: a.stdout_pump_threads_observed.saturating_add(
            b.stdout_pump_threads_observed,
        ),
        stdout_pump_threads_joined: a.stdout_pump_threads_joined.saturating_add(
            b.stdout_pump_threads_joined,
        ),
        stdout_pump_threads_panicked: a.stdout_pump_threads_panicked.saturating_add(
            b.stdout_pump_threads_panicked,
        ),
        stdout_pump_thread_owner_abandonments: a.stdout_pump_thread_owner_abandonments.saturating_add(
            b.stdout_pump_thread_owner_abandonments,
        ),
        stderr_pump_threads_observed: a.stderr_pump_threads_observed.saturating_add(
            b.stderr_pump_threads_observed,
        ),
        stderr_pump_threads_joined: a.stderr_pump_threads_joined.saturating_add(
            b.stderr_pump_threads_joined,
        ),
        stderr_pump_threads_panicked: a.stderr_pump_threads_panicked.saturating_add(
            b.stderr_pump_threads_panicked,
        ),
        stderr_pump_thread_owner_abandonments: a.stderr_pump_thread_owner_abandonments.saturating_add(
            b.stderr_pump_thread_owner_abandonments,
        ),
        shutdown_workers_started: a.shutdown_workers_started.saturating_add(
            b.shutdown_workers_started,
        ),
        shutdown_workers_terminated: a.shutdown_workers_terminated.saturating_add(
            b.shutdown_workers_terminated,
        ),
        shutdown_worker_start_failures: a.shutdown_worker_start_failures.saturating_add(
            b.shutdown_worker_start_failures,
        ),
        shutdown_worker_panics: a.shutdown_worker_panics.saturating_add(b.shutdown_worker_panics),
        shutdown_worker_publication_missing: a.shutdown_worker_publication_missing.saturating_add(
            b.shutdown_worker_publication_missing,
        ),
        shutdown_worker_owner_abandonments: a.shutdown_worker_owner_abandonments.saturating_add(
            b.shutdown_worker_owner_abandonments,
        ),
        startup: a.startup,
    }
}

/// A count as far as 32 bits hold it.
pub open spec fn count32(count: usize) -> u32 {
    if count > u32::MAX {
        u32::MAX
    } else {
        count as u32
    }
}

/// Evidence after owners were abandoned: each of them stays as a session and as a handle.
pub open spec fn abandoned(
    evidence: AudioWindowDecoderShutdownEvidence,
    owners: usize,
) -> AudioWindowDecoderShutdownEvidence {
    AudioWindowDecoderShutdownEvidence {
        sessions_remaining: evidence.sessions_remaining.saturating_add(owners),
        resource_handles_remaining: evidence.resource_handles_remaining.saturating_add(owners),
        shutdown_worker_owner_abandonments: evidence.shutdown_worker_owner_abandonments.saturating_add(
            count32(owners),
        ),
        ..evidence
    }
}

impl Default for AudioWindowDecoderShutdownEvidence {
    fn default() -> (r: AudioWindowDecoderShutdownEvidence)
        ensures
            r == no_evidence(),
    {
        AudioWindowDecoderShutdownEvidence {
            sessions_before: 0,
            sessions_remaining: 0,
            external_session_slot_references: 0,
            resource_handles_remaining: 0,
            child_processes_observed: 0,
            child_processes_terminated: 0,
            child_process_termination_failures: 0,
            stdout_pump_threads_observed: 0,
            stdout_pump_threads_joined: 0,
            stdout_pump_threads_panicked: 0,
            stdout_pump_thread_owner_abandonments: 0,
            stderr_pump_threads_observed: 0,
            stderr_pump_threads_joined: 0,
            stderr_pump_threads_panicked: 0,
            stderr_pump_thread_owner_abandonments: 0,
            shutdown_workers_started: 0,
            shutdown_workers_terminated: 0,
            shutdown_worker_start_failures: 0,
            shutdown_worker_panics: 0,
            shutdown_worker_publication_missing: 0,
            shutdown_worker_owner_abandonments: 0,
            startup: AudioDecoderStartupShutdownEvidence::default(),
        }
    }
}

/// What became of a pump thread.
#[derive(Debug, Clone, Copy, PartialEq, Eq, Structural)]
pub enum PumpOutcome {
    /// It was joined.
    Joined,
    /// It panicked; the payload was disposed, or abandoned because its type is unknown.
    Panicked { owner_abandoned: bool },
}

/// Which pipe a pump thread serves.
#[derive(Debug, Clone, Copy, PartialEq, Eq, Structural)]
pub enum PumpKind {
    Stdout,
    Stderr,
}

/// What ending a child process brought.
#[derive(Debug, Clone, Copy, PartialEq, Eq, Structural)]
pub enum ChildOutcome {
    /// It had exited before.
    AlreadyExited,
    /// It was killed and waited for. The status could not be asked, or the kill failed.
    Reaped { asked: bool, killed: bool },
    /// It could not be waited for.
    Lost,
}

impl AudioWindowDecoderShutdownEvidence {
    /// Whether nothing failed, panicked or was abandoned, and nothing remains.
    pub open spec fn clean(&self) -> bool {
        &&& self.sessions_remaining == 0
        &&& self.external_session_slot_references == 0
        &&& self.resource_handles_remaining == 0
        &&& self.child_process_termination_failures == 0
        &&& self.stdout_pump_threads_panicked == 0
        &&& self.stdout_pump_thread_owner_abandonments == 0
        &&& self.stderr_pump_threads_panicked == 0
        &&& self.stderr_pump_thread_owner_abandonments == 0
        &&& self.shutdown_worker_start_failures == 0
        &&& self.shutdown_worker_panics == 0
        &&& self.shutdown_worker_publication_missing == 0
        &&& self.shutdown_worker_owner_abandonments == 0
    }

    /// Whether every process and thread that was observed has ended.
    pub open spec fn balanced(&self) -> bool {
        &&& self.child_processes_terminated == self.child_processes_observed
        &&& self.stdout_pump_threads_joined == self.stdout_pump_threads_observed
        &&& self.stderr_pump_threads_joined == self.stderr_pump_threads_observed
        &&& self.shutdown_workers_terminated == self.shutdown_workers_started
    }

    /// Whether every session, process, thread and worker closed exactly.
    pub open spec fn released(&self) -> bool {
        &&& self.clean()
        &&& self.balanced()
        &&& self.startup.released()
    }

    /// Whether every session, process, thread and worker closed exactly.
    pub fn all_resources_released(&self) -> (r: bool)
        ensures
            r == self.released(),
    {
        self.sessions_remaining == 0 && self.external_session_slot_references == 0
            && self.resource_handles_remaining == 0 && self.child_process_termination_failures == 0
            && self.stdout_pump_threads_panicked == 0 && self.stdout_pump_thread_owner_abandonments
            == 0 && self.stderr_pump_threads_panicked == 0
            && self.stderr_pump_thread_owner_abandonments == 0
            && self.shutdown_worker_start_failures == 0 && self.shutdown_worker_panics == 0
            && self.shutdown_worker_publication_missing == 0
            && self.shutdown_worker_owner_abandonments == 0 && self.child_processes_terminated
            == self.child_processes_observed && self.stdout_pump_threads_joined
            == self.stdout_pump_threads_observed && self.stderr_pump_threads_joined
            == self.stderr_pump_threads_observed && self.shutdown_workers_terminated
            == self.shutdown_workers_started && self.startup.all_resources_released()
    }

    /// Adds another observation.
    pub fn merge(&mut self, other: AudioWindowDecoderShutdownEvidence)
        ensures
            *final(self) == merged(*old(self), other),
    {
        self.sessions_before = self.sessions_before.saturating_add(other.sessions_before);
        self.sessions_remaining = self.sessions_remaining.saturating_add(other.sessions_remaining);
        self.external_session_slot_references =
            self.external_session_slot_references.saturating_add(
                other.external_session_slot_references,
            );
        self.resource_handles_remaining =
            self.resource_handles_remaining.saturating_add(other.resource_handles_remaining);
        self.child_processes_observed =
            self.child_processes_observed.saturating_add(other.child_processes_observed);
        self.child_processes_terminated =
            self.child_processes_terminated.saturating_add(other.child_processes_terminated);
        self.child_process_termination_failures =
            self.child_process_termination_failures.saturating_add(
                other.child_process_termination_failures,
            );
        self.stdout_pump_threads_observed =
            self.stdout_pump_threads_observed.saturating_add(other.stdout_pump_threads_observed);
        self.stdout_pump_threads_joined =
            self.stdout_pump_threads_joined.saturating_add(other.stdout_pump_threads_joined);
        self.stdout_pump_threads_panicked =
            self.stdout_pump_threads_panicked.saturating_add(other.stdout_pump_threads_panicked);
        self.stdout_pump_thread_owner_abandonments =
            self.stdout_pump_thread_owner_abandonments.saturating_add(
                other.stdout_pump_thread_owner_abandonments,
            );
        self.stderr_pump_threads_observed =
            self.stderr_pump_threads_observed.saturating_add(other.stderr_pump_threads_observed);
        self.stderr_pump_threads_joined =
            self.stderr_pump_threads_joined.saturating_add(other.stderr_pump_threads_joined);
        self.stderr_pump_threads_panicked =
            self.stderr_pump_threads_panicked.saturating_add(other.stderr_pump_threads_panicked);
        self.stderr_pump_thread_owner_abandonments =
            self.stderr_pump_thread_owner_abandonments.saturating_add(
                other.stderr_pump_thread_owner_abandonments,
            );
        self.shutdown_workers_started =
            self.shutdown_workers_started.saturating_add(other.shutdown_workers_started);
        self.shutdown_workers_terminated =
            self.shutdown_workers_terminated.saturating_add(other.shutdown_workers_terminated);
        self.shutdown_worker_start_failures =
            self.shutdown_worker_start_failures.saturating_add(
                other.shutdown_worker_start_failures,
            );
        self.shutdown_worker_panics =
            self.shutdown_worker_panics.saturating_add(other.shutdown_worker_panics);
        self.shutdown_worker_publication_missing =
            self.shutdown_worker_publication_missing.saturating_add(
                other.shutdown_worker_publication_missing,
            );
        self.shutdown_worker_owner_abandonments =
            self.shutdown_worker_owner_abandonments.saturating_add(
                other.shutdown_worker_owner_abandonments,
            );
    }

    /// Records that owners were deliberately abandoned.
    pub fn abandon_owners(&mut self, owners: usize)
        ensures
            *final(self) == abandoned(*old(self), owners),
    {
        self.sessions_remaining = self.sessions_remaining.saturating_add(owners);
        self.resource_handles_remaining = self.resource_handles_remaining.saturating_add(owners);
        let counted: u32 = if owners as u64 > 0xffff_ffff {
            u32::MAX
        } else {
            owners as u32
        };
        self.shutdown_worker_owner_abandonments =
            self.shutdown_worker_owner_abandonments.saturating_add(counted);
    }

    /// Records what became of a pump thread.
    pub fn record_pump(&mut self, kind: PumpKind, outcome: PumpOutcome)
        ensures
            *final(self) == pump_recorded(*old(self), kind, outcome),
    {
        let (panicked, owner_abandoned) = match outcome {
            PumpOutcome::Joined => (false, false),
            PumpOutcome::Panicked { owner_abandoned } => (true, owner_abandoned),
        };
        match kind {
            PumpKind::Stdout => {
                self.stdout_pump_threads_observed =
                    self.stdout_pump_threads_observed.saturating_add(1);
                if panicked {
                    self.stdout_pump_threads_panicked =
                        self.stdout_pump_threads_panicked.saturating_add(1);
                    if owner_abandoned {
                        self.stdout_pump_thread_owner_abandonments =
                            self.stdout_pump_thread_owner_abandonments.saturating_add(1);
                    }
                } else {
                    self.stdout_pump_threads_joined =
                        self.stdout_pump_threads_joined.saturating_add(1);
                }
            },
            PumpKind::Stderr => {
                self.stderr_pump_threads_observed =
                    self.stderr_pump_threads_observed.saturating_add(1);
                if panicked {
                    self.stderr_pump_threads_panicked =
                        self.stderr_pump_threads_panicked.saturating_add(1);
                    if owner_abandoned {
                        self.stderr_pump_thread_owner_abandonments =
                            self.stderr_pump_thread_owner_abandonments.saturating_add(1);
                    }
                } else {
                    self.stderr_pump_threads_joined =
                        self.stderr_pump_threads_joined.saturating_add(1);
                }
            },
        }
    }

    /// Records what ending a child process brought.
    pub fn record_child(&mut self, outcome: ChildOutcome)
        ensures
            *final(self) == child_recorded(*old(self), outcome),
    {
        self.child_processes_observed = self.child_processes_observed.saturating_add(1);
        let failed = match outcome {
            ChildOutcome::AlreadyExited => {
                self.child_processes_terminated = self.child_processes_terminated.saturating_add(1);
                false
            },
            ChildOutcome::Reaped { asked, killed } => {
                self.child_processes_terminated = self.child_processes_terminated.saturating_add(1);
                !asked || !killed
            },
            ChildOutcome::Lost => {
                self.resource_handles_remaining = self.resource_handles_remaining.saturating_add(1);
                true
            },
        };
        if failed {
            self.child_process_termination_failures =
                self.child_process_termination_failures.saturating_add(1);
        }
    }
}

/// What one outcome adds to a counter.
pub open spec fn one_if(condition: bool) -> u32 {
    if condition {
        1
    } else {
        0
    }
}

/// Evidence after a pump thread ended: it is observed, and either joined or panicked.
pub open spec fn pump_recorded(
    evidence: AudioWindowDecoderShutdownEvidence,
    kind: PumpKind,
    outcome: PumpOutcome,
) -> AudioWindowDecoderShutdownEvidence {
    let joined = one_if(outcome is Joined);
    let panicked = one_if(outcome is Panicked);
    let abandonments = one_if(outcome == PumpOutcome::Panicked { owner_abandoned: true });
    match kind {
        PumpKind::Stdout => AudioWindowDecoderShutdownEvidence {
            stdout_pump_threads_observed: evidence.stdout_pump_threads_observed.saturating_add(1),
            stdout_pump_threads_joined: evidence.stdout_pump_threads_joined.saturating_add(joined),
            stdout_pump_threads_panicked: evidence.stdout_pump_threads_panicked.saturating_add(
                panicked,
            ),
            stdout_pump_thread_owner_abandonments: evidence.stdout_pump_thread_owner_abandonments.saturating_add(
            abandonments),
            ..evidence
        },
        PumpKind::Stderr => AudioWindowDecoderShutdownEvidence {
            stderr_pump_threads_observed: evidence.stderr_pump_threads_observed.saturating_add(1),
            stderr_pump_threads_joined: evidence.stderr_pump_threads_joined.saturating_add(joined),
            stderr_pump_threads_panicked: evidence.stderr_pump_threads_panicked.saturating_add(
                panicked,
            ),
            stderr_pump_thread_owner_abandonments: evidence.stderr_pump_thread_owner_abandonments.saturating_add(
            abandonments),
            ..evidence
        },
    }
}

/// Whether ending a child process failed in any part.
pub open spec fn child_failed(outcome: ChildOutcome) -> bool {
    match outcome {
        ChildOutcome::AlreadyExited => false,
        ChildOutcome::Reaped { asked, killed } => !(asked && killed),
        ChildOutcome::Lost => true,
    }
}

/// Evidence after a child process was ended: it is observed, and either terminated or
/// a handle that remains.
pub open spec fn child_recorded(
    evidence: AudioWindowDecoderShutdownEvidence,
    outcome: ChildOutcome,
) -> AudioWindowDecoderShutdownEvidence {
    AudioWindowDecoderShutdownEvidence {
        child_processes_observed: evidence.child_processes_observed.saturating_add(1),
        child_processes_terminated: evidence.child_processes_terminated.saturating_add(
            one_if(!(outcome is Lost)),
        ),
        resource_handles_remaining: evidence.resource_handles_remaining.saturating_add(
            one_if(outcome is Lost) as usize,
        ),
        child_process_termination_failures: evidence.child_process_termination_failures.saturating_add(
            one_if(child_failed(outcome)),
        ),
        ..evidence
    }
}

/// Whether retirement of sessions failed so that no session may be opened any more.
pub fn teardown_retirement_failed(evidence: &AudioWindowDecoderShutdownEvidence) -> (r: bool)
    ensures
        r == retirement_failed(*evidence),
{
    evidence.child_process_termination_failures > 0 || evidence.stdout_pump_threads_panicked > 0
        || evidence.stdout_pump_thread_owner_abandonments > 0
        || evidence.stderr_pump_threads_panicked > 0
        || evidence.stderr_pump_thread_owner_abandonments > 0 || evidence.resource_handles_remaining
        > 0 || evidence.shutdown_worker_panics > 0 || evidence.shutdown_worker_owner_abandonments
        > 0
}

/// Whether retirement of sessions failed: a process, a pump or an owner is in doubt.
pub open spec fn retirement_failed(evidence: AudioWindowDecoderShutdownEvidence) -> bool {
    ||| evidence.child_process_termination_failures > 0
    ||| evidence.stdout_pump_threads_panicked > 0
    ||| evidence.stdout_pump_thread_owner_abandonments > 0
    ||| evidence.stderr_pump_threads_panicked > 0
    ||| evidence.stderr_pump_thread_owner_abandonments > 0
    ||| evidence.resource_handles_remaining > 0
    ||| evidence.shutdown_worker_panics > 0
    ||| evidence.shutdown_worker_owner_abandonments > 0
}

/// The order in which retired sessions report does not matter.
pub proof fn merging_ignores_order(
    a: AudioWindowDecoderShutdownEvidence,
    b: AudioWindowDecoderShutdownEvidence,
    c: AudioWindowDecoderShutdownEvidence,
)
    ensures
        merged(merged(a, b), c) == merged(merged(a, c), b),
        merged(merged(a, b), c) == merged(a, merged(b, c)),
        merged(a, no_evidence()) == a,
{
}

/// A doubt never goes away: evidence that shows a failed retirement, or is not clean,
/// shows it after every merge, on either side.
pub proof fn doubts_persist(
    a: AudioWindowDecoderShutdownEvidence,
    b: AudioWindowDecoderShutdownEvidence,
)
    ensures
        retirement_failed(merged(a, b)) == (retirement_failed(a) || retirement_failed(b)),
        merged(a, b).clean() == (a.clean() && b.clean()),
{
}

/// Whatever becomes of pumps and processes, a clean end keeps evidence clean and in
/// balance, and any other end shows.
pub proof fn only_clean_ends_stay_clean(
    evidence: AudioWindowDecoderShutdownEvidence,
    kind: PumpKind,
    pump: PumpOutcome,
    child: ChildOutcome,
)
    ensures
        pump_recorded(evidence, kind, pump).clean() == (evidence.clean() && pump is Joined),
        child_recorded(evidence, child).clean() == (evidence.clean() && !child_failed(child)),
        evidence.balanced() && pump is Joined ==> pump_recorded(evidence, kind, pump).balanced(),
        evidence.balanced() && !child_failed(child) ==> child_recorded(evidence, child).balanced(),
{
}

/// Merging adds every counter of one kind to that of the same kind, as far as the counter
/// holds the sum, and takes the startup inventory of the first.
pub proof fn merging_adds_counters(
    a: AudioWindowDecoderShutdownEvidence,
    b: AudioWindowDecoderShutdownEvidence,
)
    ensures
        a.sessions_before + b.sessions_before <= usize::MAX ==> merged(a, b).sessions_before
            == a.sessions_before + b.sessions_before,
        a.sessions_remaining + b.sessions_remaining <= usize::MAX
            ==> merged(a, b).sessions_remaining == a.sessions_remaining + b.sessions_remaining,
        a.external_session_slot_references + b.external_session_slot_references <= usize::MAX
            ==> merged(a, b).external_session_slot_references
            == a.external_session_slot_references + b.external_session_slot_references,
        a.resource_handles_remaining + b.resource_handles_remaining <= usize::MAX
            ==> merged(a, b).resource_handles_remaining
            == a.resource_handles_remaining + b.resource_handles_remaining,
        a.child_processes_observed + b.child_processes_observed <= u32::MAX
            ==> merged(a, b).child_processes_observed
            == a.child_processes_observed + b.child_processes_observed,
        a.child_processes_terminated + b.child_processes_terminated <= u32::MAX
            ==> merged(a, b).child_processes_terminated
            == a.child_processes_terminated + b.child_processes_terminated,
        a.child_process_termination_failures + b.child_process_termination_failures <= u32::MAX ==> merged(a, b).child_process_termination_failures == a.child_process_termination_failures + b.child_process_termination_failures,
        a.stdout_pump_threads_observed + b.stdout_pump_threads_observed <= u32::MAX
            ==> merged(a, b).stdout_pump_threads_observed
            == a.stdout_pump_threads_observed + b.stdout_pump_threads_observed,
        a.stdout_pump_threads_joined + b.stdout_pump_threads_joined <= u32::MAX
            ==> merged(a, b).stdout_pump_threads_joined
            == a.stdout_pump_threads_joined + b.stdout_pump_threads_joined,
        a.stdout_pump_threads_panicked + b.stdout_pump_threads_panicked <= u32::MAX
            ==> merged(a, b).stdout_pump_threads_panicked
            == a.stdout_pump_threads_panicked + b.stdout_pump_threads_panicked,
        a.stdout_pump_thread_owner_abandonments + b.stdout_pump_thread_owner_abandonments <= u32::MAX ==> merged(a, b).stdout_pump_thread_owner_abandonments == a.stdout_pump_thread_owner_abandonments + b.stdout_pump_thread_owner_abandonments,
        a.stderr_pump_threads_observed + b.stderr_pump_threads_observed <= u32::MAX
            ==> merged(a, b).stderr_pump_threads_observed
            == a.stderr_pump_threads_observed + b.stderr_pump_threads_observed,
        a.stderr_pump_threads_joined + b.stderr_pump_threads_joined <= u32::MAX
            ==> merged(a, b).stderr_pump_threads_joined
            == a.stderr_pump_threads_joined + b.stderr_pump_threads_joined,
        a.stderr_pump_threads_panicked + b.stderr_pump_threads_panicked <= u32::MAX
            ==> merged(a, b).stderr_pump_threads_panicked
            == a.stderr_pump_threads_panicked + b.stderr_pump_threads_panicked,
        a.stderr_pump_thread_owner_abandonments + b.stderr_pump_thread_owner_abandonments <= u32::MAX ==> merged(a, b).stderr_pump_thread_owner_abandonments == a.stderr_pump_thread_owner_abandonments + b.stderr_pump_thread_owner_abandonments,
        a.shutdown_workers_started + b.shutdown_workers_started <= u32::MAX
            ==> merged(a, b).shutdown_workers_started
            == a.shutdown_workers_started + b.shutdown_workers_started,
        a.shutdown_workers_terminated + b.shutdown_workers_terminated <= u32::MAX
            ==> merged(a, b).shutdown_workers_terminated
            == a.shutdown_workers_terminated + b.shutdown_workers_terminated,
        a.shutdown_worker_start_failures + b.shutdown_worker_start_failures <= u32::MAX
            ==> merged(a, b).shutdown_worker_start_failures
            == a.shutdown_worker_start_failures + b.shutdown_worker_start_failures,
        a.shutdown_worker_panics + b.shutdown_worker_panics <= u32::MAX
            ==> merged(a, b).shutdown_worker_panics
            == a.shutdown_worker_panics + b.shutdown_worker_panics,
        a.shutdown_worker_publication_missing + b.shutdown_worker_publication_missing <= u32::MAX ==> merged(a, b).shutdown_worker_publication_missing == a.shutdown_worker_publication_missing + b.shutdown_worker_publication_missing,
        a.shutdown_worker_owner_abandonments + b.shutdown_worker_owner_abandonments <= u32::MAX ==> merged(a, b).shutdown_worker_owner_abandonments == a.shutdown_worker_owner_abandonments + b.shutdown_worker_owner_abandonments,
        merged(a, b).startup == a.startup,
{
}

/// Evidence shows a full release only where nothing is left, nothing failed, and whatever
/// was begun has ended.
pub proof fn releases_are_full(evidence: AudioWindowDecoderShutdownEvidence)
    ensures
        evidence.released() ==> !retirement_failed(evidence),
        evidence.sessions_remaining > 0 ==> !evidence.released(),
        evidence.external_session_slot_references > 0 ==> !evidence.released(),
        evidence.resource_handles_remaining > 0 ==> !evidence.released(),
        evidence.child_process_termination_failures > 0 ==> !evidence.released(),
        evidence.stdout_pump_threads_panicked > 0 ==> !evidence.released(),
        evidence.stdout_pump_thread_owner_abandonments > 0 ==> !evidence.released(),
        evidence.stderr_pump_threads_panicked > 0 ==> !evidence.released(),
        evidence.stderr_pump_thread_owner_abandonments > 0 ==> !evidence.released(),
        evidence.shutdown_worker_start_failures > 0 ==> !evidence.released(),
        evidence.shutdown_worker_panics > 0 ==> !evidence.released(),
        evidence.shutdown_worker_publication_missing > 0 ==> !evidence.released(),
        evidence.shutdown_worker_owner_abandonments > 0 ==> !evidence.released(),
        evidence.child_processes_terminated < evidence.child_processes_observed
            ==> !evidence.released(),
        evidence.stdout_pump_threads_joined < evidence.stdout_pump_threads_observed
            ==> !evidence.released(),
        evidence.stderr_pump_threads_joined < evidence.stderr_pump_threads_observed
            ==> !evidence.released(),
        evidence.shutdown_workers_terminated < evidence.shutdown_workers_started
            ==> !evidence.released(),
        evidence.startup.start_failures > 0 ==> !evidence.released(),
        evidence.startup.panics > 0 ==> !evidence.released(),
        evidence.startup.publication_missing > 0 ==> !evidence.released(),
        evidence.startup.owner_abandonments > 0 ==> !evidence.released(),
        evidence.startup.unverified_native_owners > 0 ==> !evidence.released(),
        evidence.startup.queued_remaining > 0 ==> !evidence.released(),
        evidence.startup.in_flight_remaining > 0 ==> !evidence.released(),
        evidence.startup.unclaimed_results_remaining > 0 ==> !evidence.released(),
        evidence.startup.producers_remaining > 0 ==> !evidence.released(),
        evidence.startup.workers_joined < evidence.startup.workers_started ==> !evidence.released(),
        evidence.startup.required && evidence.startup.workers_started == 0 ==> !evidence.released(),
        !evidence.startup.required && evidence.startup.requests_admitted > 0
            ==> !evidence.released(),
        evidence.startup.requests_claimed + evidence.startup.requests_retired
            < evidence.startup.requests_admitted ==> !evidence.released(),
        no_evidence().released(),
        evidence.child_process_termination_failures > 0 ==> retirement_failed(evidence),
        evidence.stdout_pump_threads_panicked > 0 ==> retirement_failed(evidence),
        evidence.stdout_pump_thread_owner_abandonments > 0 ==> retirement_failed(evidence),
        evidence.stderr_pump_threads_panicked > 0 ==> retirement_failed(evidence),
        evidence.stderr_pump_thread_owner_abandonments > 0 ==> retirement_failed(evidence),
        evidence.resource_handles_remaining > 0 ==> retirement_failed(evidence),
        evidence.shutdown_worker_panics > 0 ==> retirement_failed(evidence),
        evidence.shutdown_worker_owner_abandonments > 0 ==> retirement_failed(evidence),
{
}

/// Whatever becomes of a process, it is counted once among those observed. It is counted
/// among those that ended unless it was lost, which leaves a handle. Only one that had
/// ended by itself, or was both asked and made to end, is no failure.
pub proof fn processes_are_counted_once(
    evidence: AudioWindowDecoderShutdownEvidence,
    outcome: ChildOutcome,
)
    requires
        evidence.child_processes_observed < u32::MAX,
        evidence.child_processes_terminated < u32::MAX,
        evidence.child_process_termination_failures < u32::MAX,
        evidence.resource_handles_remaining < usize::MAX,
    ensures
        ({
            let after = child_recorded(evidence, outcome);
            &&& after.child_processes_observed == evidence.child_processes_observed + 1
            &&& (after.child_processes_terminated - evidence.child_processes_terminated) + (
            after.resource_handles_remaining - evidence.resource_handles_remaining) == 1
            &&& outcome is Lost <==> after.resource_handles_remaining
                > evidence.resource_handles_remaining
            &&& after.child_process_termination_failures
                == evidence.child_process_termination_failures <==> outcome is AlreadyExited
                || outcome == ChildOutcome::Reaped { asked: true, killed: true }
            &&& after.child_process_termination_failures
                <= evidence.child_process_termination_failures + 1
            &&& after.sessions_remaining == evidence.sessions_remaining
            &&& after.stdout_pump_threads_observed == evidence.stdout_pump_threads_observed
            &&& after.stderr_pump_threads_observed == evidence.stderr_pump_threads_observed
        }),
{
}

/// Whatever becomes of a pump, it is counted once among those observed of its kind, and
/// once more as joined or as panicked. The other kind is not touched.
pub proof fn pumps_are_counted_once(
    evidence: AudioWindowDecoderShutdownEvidence,
    outcome: PumpOutcome,
)
    requires
        evidence.stdout_pump_threads_observed < u32::MAX,
        evidence.stdout_pump_threads_joined < u32::MAX,
        evidence.stdout_pump_threads_panicked < u32::MAX,
        evidence.stdout_pump_thread_owner_abandonments < u32::MAX,
        evidence.stderr_pump_threads_observed < u32::MAX,
        evidence.stderr_pump_threads_joined < u32::MAX,
        evidence.stderr_pump_threads_panicked < u32::MAX,
        evidence.stderr_pump_thread_owner_abandonments < u32::MAX,
    ensures
        ({
            let after = pump_recorded(evidence, PumpKind::Stdout, outcome);
            &&& after.stdout_pump_threads_observed == evidence.stdout_pump_threads_observed + 1
            &&& (after.stdout_pump_threads_joined - evidence.stdout_pump_threads_joined) + (
            after.stdout_pump_threads_panicked - evidence.stdout_pump_threads_panicked) == 1
            &&& outcome is Joined <==> after.stdout_pump_threads_joined
                > evidence.stdout_pump_threads_joined
            &&& outcome == PumpOutcome::Panicked { owner_abandoned: true }
                <==> after.stdout_pump_thread_owner_abandonments
                > evidence.stdout_pump_thread_owner_abandonments
            &&& after.stdout_pump_thread_owner_abandonments
                <= evidence.stdout_pump_thread_owner_abandonments + 1
            &&& after.stderr_pump_threads_observed == evidence.stderr_pump_threads_observed
            &&& after.stderr_pump_threads_joined == evidence.stderr_pump_threads_joined
            &&& after.stderr_pump_threads_panicked == evidence.stderr_pump_threads_panicked
            &&& after.child_processes_observed == evidence.child_processes_observed
        }),
        ({
            let after = pump_recorded(evidence, PumpKind::Stderr, outcome);
            &&& after.stderr_pump_threads_observed == evidence.stderr_pump_threads_observed + 1
            &&& (after.stderr_pump_threads_joined - evidence.stderr_pump_threads_joined) + (
            after.stderr_pump_threads_panicked - evidence.stderr_pump_threads_panicked) == 1
            &&& outcome is Joined <==> after.stderr_pump_threads_joined
                > evidence.stderr_pump_threads_joined
            &&& outcome == PumpOutcome::Panicked { owner_abandoned: true }
                <==> after.stderr_pump_thread_owner_abandonments
                > evidence.stderr_pump_thread_owner_abandonments
            &&& after.stderr_pump_thread_owner_abandonments
                <= evidence.stderr_pump_thread_owner_abandonments + 1
            &&& after.stdout_pump_threads_observed == evidence.stdout_pump_threads_observed
            &&& after.stdout_pump_threads_joined == evidence.stdout_pump_threads_joined
            &&& after.stdout_pump_threads_panicked == evidence.stdout_pump_threads_panicked
            &&& after.child_processes_observed == evidence.child_processes_observed
        }),
{
}

/// Each owner that is abandoned stays as a session, as a handle and as an abandonment.
pub proof fn abandoned_owners_show(evidence: AudioWindowDecoderShutdownEvidence, owners: usize)
    requires
        owners > 0,
    ensures
        retirement_failed(abandoned(evidence, owners)),
        !abandoned(evidence, owners).released(),
        evidence.sessions_remaining + owners <= usize::MAX ==> abandoned(
            evidence,
            owners,
        ).sessions_remaining == evidence.sessions_remaining + owners,
        evidence.resource_handles_remaining + owners <= usize::MAX ==> abandoned(
            evidence,
            owners,
        ).resource_handles_remaining == evidence.resource_handles_remaining + owners,
        evidence.shutdown_worker_owner_abandonments + owners <= u32::MAX ==> abandoned(
            evidence,
            owners,
        ).shutdown_worker_owner_abandonments == evidence.shutdown_worker_owner_abandonments
            + owners,
{
}

} // verus!
