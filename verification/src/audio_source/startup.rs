//! The lane that starts native decoder processes, apart from readers that can be canceled
//! and from teardown: one worker, a bounded queue, and requests that are accounted for
//! from their admission to their end.

use crate::audio_source::evidence::{no_startup, one_if, AudioDecoderStartupShutdownEvidence};
use crate::audio_source::fault::{DecodeFault, Surroundings};
use crate::audio_source::shutdown::{
    startup_end_faults, startup_verdict, SpawnVerdict, WorkerSpawn,
};
use vstd::prelude::*;

verus! {

/// What the startup worker is at.
#[derive(Debug, Clone, Copy, PartialEq, Eq, Structural)]
pub enum StartupWork {
    Idle,
    /// It has a request in hand. A request that is canceled before its process is created
    /// is counted once.
    Starting { counted: bool },
    /// It panicked with a request in hand, whose process nobody knows of.
    Lost,
}

/// What asking for a startup brings.
#[derive(Debug, PartialEq, Eq)]
pub enum StartupAdmission {
    Admitted,
    /// Too many requests are not settled yet: ask again later.
    Wait,
    Refused(DecodeFault),
}

/// What the startup worker does next.
#[derive(Debug, Clone, Copy, PartialEq, Eq, Structural)]
pub enum NextRequest {
    /// It starts the oldest request.
    Start,
    /// It sleeps until it is woken.
    Park,
    /// It ends.
    Stop,
}

/// A started process, or the failure to start it, on the way to its reader.
#[derive(Debug, PartialEq, Eq)]
pub struct StartupCompletion {
    claimed: bool,
}

impl StartupCompletion {
    /// Whether the reader has taken the result.
    pub closed spec fn is_claimed(&self) -> bool {
        self.claimed
    }
}

/// What joining the startup worker brought.
#[derive(Debug, Clone, Copy, PartialEq, Eq, Structural)]
pub enum StartupJoin {
    /// There is none to join.
    Absent,
    /// Shutdown was called from the worker itself.
    CurrentThread,
    Joined,
    /// It ended by a panic. The payload was disposed, or abandoned.
    Panicked { payload_abandoned: bool },
}

/// What a reader finds when it looks for the result of its request.
#[derive(Debug, Clone, Copy, PartialEq, Eq, Structural)]
pub enum CompletionLook {
    Delivered,
    /// The worker dropped the request.
    Disconnected,
    Timeout,
}

/// The startup lane, as far as it is counted.
pub struct StartupLane {
    limit: usize,
    evidence: AudioDecoderStartupShutdownEvidence,
    work: StartupWork,
    /// The worker has ended, or never started.
    finished: bool,
    /// There is a worker to join.
    supervised: bool,
}

/// Whether a request is in hand.
pub open spec fn in_hand(work: StartupWork) -> nat {
    if work is Starting {
        1
    } else {
        0
    }
}

impl StartupLane {
    /// The inventory.
    pub closed spec fn inventory(&self) -> AudioDecoderStartupShutdownEvidence {
        self.evidence
    }

    /// What the worker is at.
    pub closed spec fn work(&self) -> StartupWork {
        self.work
    }

    /// Whether the worker has ended, or never started.
    pub closed spec fn finished(&self) -> bool {
        self.finished
    }

    /// Whether there is a worker to join.
    pub closed spec fn supervised(&self) -> bool {
        self.supervised
    }

    /// The most requests that are not settled at a time.
    pub closed spec fn limit(&self) -> usize {
        self.limit
    }

    /// Results that readers have taken and not settled yet.
    pub open spec fn claimed_open(&self) -> int {
        self.inventory().producers_remaining - self.inventory().queued_remaining - in_hand(
            self.work(),
        ) - self.inventory().unclaimed_results_remaining
    }

    /// Every admitted request is at exactly one stage: queued, in hand, published, taken
    /// by its reader, or retired.
    pub open spec fn wf(&self) -> bool {
        let e = self.inventory();
        &&& e.required
        &&& e.producers_remaining <= self.limit()
        &&& self.claimed_open() >= 0
        &&& e.in_flight_remaining == in_hand(self.work()) + (if self.work() is Lost {
            1int
        } else {
            0
        })
        &&& e.requests_claimed + e.requests_retired + e.queued_remaining + in_hand(self.work())
            + e.unclaimed_results_remaining == e.requests_admitted
        &&& self.claimed_open() <= e.requests_claimed
        &&& e.canceled_before_spawn + e.queued_remaining + (if self.work()
            == (StartupWork::Starting { counted: false }) {
            1int
        } else {
            0
        }) <= e.requests_admitted
        &&& self.work() is Lost ==> e.panics > 0 && e.unverified_native_owners > 0
        &&& self.finished() ==> !(self.work() is Starting) && e.queued_remaining == 0
        &&& self.supervised() ==> e.attempted && e.workers_started == 1 && e.workers_joined == 0
            && e.start_failures == 0
        &&& e.workers_joined <= e.workers_started <= 1
        &&& !e.attempted ==> e.workers_started == 0 && e.workers_joined == 0 && !self.finished()
            && e.requests_admitted == 0 && !self.supervised() && self.work() is Idle
            && e.panics == 0 && e.owner_abandonments == 0 && e.start_failures == 0
        &&& e.panics <= one_if(self.finished()) + one_if(!self.supervised())
        &&& e.owner_abandonments <= one_if(self.finished()) + one_if(!self.supervised())
        &&& e.unverified_native_owners <= one_if(self.finished())
        &&& e.publication_missing <= e.workers_joined
    }

    /// A lane whose worker is not started yet.
    pub fn new(limit: usize) -> (lane: StartupLane)
        ensures
            lane.wf(),
            lane.limit() == limit,
            lane.inventory() == (AudioDecoderStartupShutdownEvidence {
                required: true,
                ..no_startup()
            }),
            lane.work() is Idle,
            !lane.finished(),
            !lane.supervised(),
    {
        let mut evidence = AudioDecoderStartupShutdownEvidence::default();
        evidence.required = true;
        StartupLane {
            limit,
            evidence,
            work: StartupWork::Idle,
            finished: false,
            supervised: false,
        }
    }

    /// Records the attempt to start the worker. Where it failed, no session can be opened:
    /// the decoder is faulted and asks itself to shut down.
    pub fn start(&mut self, spawn: WorkerSpawn) -> (verdict: SpawnVerdict)
        requires
            old(self).wf(),
            !old(self).inventory().attempted,
        ensures
            final(self).wf(),
            final(self).limit() == old(self).limit(),
            verdict == startup_verdict(spawn),
            verdict.request_shutdown == verdict.faulted,
            verdict.faulted == !(spawn is Started),
            final(self).supervised() == (spawn is Started),
            final(self).finished() == !(spawn is Started),
            final(self).work() is Idle,
            final(self).inventory() == (match spawn {
                WorkerSpawn::Started => AudioDecoderStartupShutdownEvidence {
                    attempted: true,
                    workers_started: 1,
                    ..old(self).inventory()
                },
                WorkerSpawn::Refused { error_abandoned } => AudioDecoderStartupShutdownEvidence {
                    attempted: true,
                    start_failures: 1,
                    panics: 0,
                    owner_abandonments: one_if(error_abandoned),
                    ..old(self).inventory()
                },
                WorkerSpawn::Panicked { payload_abandoned } => AudioDecoderStartupShutdownEvidence {
                    attempted: true,
                    start_failures: 1,
                    panics: 1,
                    owner_abandonments: one_if(payload_abandoned),
                    ..old(self).inventory()
                },
            }),
    {
        self.evidence.attempted = true;
        let (panics, dropped) = match spawn {
            WorkerSpawn::Started => {
                self.evidence.workers_started = 1;
                self.supervised = true;
                return SpawnVerdict {
                    publication: None,
                    faulted: false,
                    request_shutdown: false,
                };
            },
            WorkerSpawn::Refused { error_abandoned } => (0u32, error_abandoned),
            WorkerSpawn::Panicked { payload_abandoned } => (1u32, payload_abandoned),
        };
        self.evidence.start_failures = 1;
        self.evidence.panics = panics;
        self.evidence.owner_abandonments = if dropped {
            1
        } else {
            0
        };
        self.finished = true;
        SpawnVerdict { publication: None, faulted: true, request_shutdown: true }
    }

    /// Asks for a startup. Cancellation and shutdown come first, then a lane without a
    /// worker; too many open requests only delay.
    pub fn request_startup(&mut self, around: Surroundings) -> (r: StartupAdmission)
        requires
            old(self).wf(),
            old(self).inventory().attempted,
            old(self).inventory().requests_admitted < u64::MAX,
        ensures
            final(self).wf(),
            final(self).limit() == old(self).limit(),
            final(self).work() == old(self).work(),
            final(self).finished() == old(self).finished(),
            final(self).supervised() == old(self).supervised(),
            match r {
                StartupAdmission::Refused(fault) => if around.interrupted() {
                    fault is Canceled
                } else {
                    fault is StartupUnavailable && (around.faulted || old(self).finished())
                },
                StartupAdmission::Wait => !around.interrupted() && !around.faulted && !old(
                    self,
                ).finished() && old(self).inventory().producers_remaining >= old(self).limit(),
                StartupAdmission::Admitted => !around.interrupted() && !around.faulted && !old(
                    self,
                ).finished() && old(self).inventory().producers_remaining < old(self).limit(),
            },
            final(self).inventory() == (if r is Admitted {
                AudioDecoderStartupShutdownEvidence {
                    requests_admitted: (old(self).inventory().requests_admitted + 1) as u64,
                    producers_remaining: (old(self).inventory().producers_remaining + 1) as usize,
                    queued_remaining: (old(self).inventory().queued_remaining + 1) as usize,
                    ..old(self).inventory()
                }
            } else {
                old(self).inventory()
            }),
    {
        if around.canceled || around.shutdown {
            return StartupAdmission::Refused(DecodeFault::Canceled);
        }
        if around.faulted || self.finished {
            return StartupAdmission::Refused(DecodeFault::StartupUnavailable);
        }
        if self.evidence.producers_remaining >= self.limit {
            return StartupAdmission::Wait;
        }
        self.evidence.requests_admitted = self.evidence.requests_admitted + 1;
        self.evidence.producers_remaining = self.evidence.producers_remaining + 1;
        self.evidence.queued_remaining = self.evidence.queued_remaining + 1;
        StartupAdmission::Admitted
    }

    /// The worker takes the oldest request. It ends only where none is left and the
    /// decoder shuts down.
    pub fn dequeue(&mut self, shutdown: bool) -> (next: NextRequest)
        requires
            old(self).wf(),
            old(self).work() is Idle,
        ensures
            final(self).wf(),
            final(self).limit() == old(self).limit(),
            final(self).finished() == old(self).finished(),
            final(self).supervised() == old(self).supervised(),
            next == (if old(self).inventory().queued_remaining > 0 {
                NextRequest::Start
            } else if shutdown {
                NextRequest::Stop
            } else {
                NextRequest::Park
            }),
            next is Stop ==> shutdown && old(self).inventory().queued_remaining == 0,
            next is Park ==> !shutdown && old(self).inventory().queued_remaining == 0,
            if next is Start {
                &&& final(self).work() == (StartupWork::Starting { counted: false })
                &&& final(self).inventory() == (AudioDecoderStartupShutdownEvidence {
                    queued_remaining: (old(self).inventory().queued_remaining - 1) as usize,
                    in_flight_remaining: 1,
                    ..old(self).inventory()
                })
            } else {
                &&& final(self).work() == old(self).work()
                &&& final(self).inventory() == old(self).inventory()
            },
    {
        if self.evidence.queued_remaining > 0 {
            self.evidence.queued_remaining = self.evidence.queued_remaining - 1;
            self.evidence.in_flight_remaining = self.evidence.in_flight_remaining + 1;
            self.work = StartupWork::Starting { counted: false };
            NextRequest::Start
        } else if shutdown {
            NextRequest::Stop
        } else {
            NextRequest::Park
        }
    }

    /// Counts the attempt to start the request in hand: one that never came to create a
    /// process was canceled before.
    pub fn record_attempt(&mut self, native_attempted: bool)
        requires
            old(self).wf(),
            old(self).work() == (StartupWork::Starting { counted: false }),
        ensures
            final(self).wf(),
            final(self).limit() == old(self).limit(),
            final(self).finished() == old(self).finished(),
            final(self).supervised() == old(self).supervised(),
            final(self).work() == (StartupWork::Starting { counted: !native_attempted }),
            final(self).inventory() == (AudioDecoderStartupShutdownEvidence {
                canceled_before_spawn: (old(self).inventory().canceled_before_spawn + one_if(
                    !native_attempted,
                )) as u64,
                ..old(self).inventory()
            }),
    {
        if !native_attempted {
            self.evidence.canceled_before_spawn = self.evidence.canceled_before_spawn + 1;
            self.work = StartupWork::Starting { counted: true };
        }
    }

    /// The result of the request in hand is on its way to the reader.
    pub fn publish(&mut self) -> (completion: StartupCompletion)
        requires
            old(self).wf(),
            old(self).work() is Starting,
        ensures
            final(self).wf(),
            final(self).limit() == old(self).limit(),
            final(self).finished() == old(self).finished(),
            final(self).supervised() == old(self).supervised(),
            final(self).work() is Idle,
            final(self).claimed_open() == old(self).claimed_open(),
            !completion.is_claimed(),
            final(self).inventory() == (AudioDecoderStartupShutdownEvidence {
                in_flight_remaining: 0,
                unclaimed_results_remaining: (old(self).inventory().unclaimed_results_remaining
                    + 1) as usize,
                ..old(self).inventory()
            }),
    {
        self.evidence.in_flight_remaining = self.evidence.in_flight_remaining - 1;
        self.evidence.unclaimed_results_remaining = self.evidence.unclaimed_results_remaining + 1;
        self.work = StartupWork::Idle;
        StartupCompletion { claimed: false }
    }

    /// The reader takes a result, which is possible once.
    pub fn claim(&mut self, completion: &mut StartupCompletion) -> (r: Result<(), DecodeFault>)
        requires
            old(self).wf(),
            !old(completion).is_claimed() ==> old(self).inventory().unclaimed_results_remaining > 0,
        ensures
            final(self).wf(),
            final(self).limit() == old(self).limit(),
            final(self).work() == old(self).work(),
            final(self).finished() == old(self).finished(),
            final(self).supervised() == old(self).supervised(),
            final(completion).is_claimed(),
            match r {
                Ok(()) => {
                    &&& !old(completion).is_claimed()
                    &&& final(self).claimed_open() == old(self).claimed_open() + 1
                    &&& final(self).inventory() == (AudioDecoderStartupShutdownEvidence {
                        requests_claimed: (old(self).inventory().requests_claimed + 1) as u64,
                        unclaimed_results_remaining: (old(
                            self,
                        ).inventory().unclaimed_results_remaining - 1) as usize,
                        ..old(self).inventory()
                    })
                },
                Err(fault) => {
                    &&& old(completion).is_claimed()
                    &&& fault is StartupAlreadyClaimed
                    &&& final(self).inventory() == old(self).inventory()
                },
            },
    {
        if completion.claimed {
            return Err(DecodeFault::StartupAlreadyClaimed);
        }
        completion.claimed = true;
        self.evidence.requests_claimed = self.evidence.requests_claimed + 1;
        self.evidence.unclaimed_results_remaining = self.evidence.unclaimed_results_remaining - 1;
        Ok(())
    }

    /// A result is settled: its session was installed or went to teardown.
    pub fn settle(&mut self, completion: StartupCompletion)
        requires
            old(self).wf(),
            completion.is_claimed() ==> old(self).claimed_open() > 0,
            !completion.is_claimed() ==> old(self).inventory().unclaimed_results_remaining > 0,
        ensures
            final(self).wf(),
            final(self).limit() == old(self).limit(),
            final(self).work() == old(self).work(),
            final(self).finished() == old(self).finished(),
            final(self).supervised() == old(self).supervised(),
            final(self).inventory() == (if completion.is_claimed() {
                AudioDecoderStartupShutdownEvidence {
                    producers_remaining: (old(self).inventory().producers_remaining - 1) as usize,
                    ..old(self).inventory()
                }
            } else {
                AudioDecoderStartupShutdownEvidence {
                    requests_retired: (old(self).inventory().requests_retired + 1) as u64,
                    unclaimed_results_remaining: (old(self).inventory().unclaimed_results_remaining
                        - 1) as usize,
                    producers_remaining: (old(self).inventory().producers_remaining - 1) as usize,
                    ..old(self).inventory()
                }
            }),
    {
        if !completion.claimed {
            self.evidence.requests_retired = self.evidence.requests_retired + 1;
            self.evidence.unclaimed_results_remaining =
                self.evidence.unclaimed_results_remaining - 1;
        }
        self.evidence.producers_remaining = self.evidence.producers_remaining - 1;
    }

    /// The worker ends. Requests in the queue are retired. After a panic the request in
    /// hand is retired too, but its process stays unknown. Tells whether the decoder is
    /// faulted by it.
    pub fn worker_ended(&mut self, panic: Option<bool>) -> (faulted: bool)
        requires
            old(self).wf(),
            old(self).supervised(),
            !old(self).finished(),
            panic is None ==> old(self).work() is Idle,
        ensures
            faulted == startup_end_faults(panic),
            final(self).wf(),
            final(self).limit() == old(self).limit(),
            final(self).finished(),
            final(self).supervised(),
            final(self).claimed_open() == old(self).claimed_open(),
            final(self).work() == (if old(self).work() is Idle {
                StartupWork::Idle
            } else {
                StartupWork::Lost
            }),
            final(self).inventory() == (AudioDecoderStartupShutdownEvidence {
                panics: (old(self).inventory().panics + one_if(panic is Some)) as u32,
                owner_abandonments: (old(self).inventory().owner_abandonments + one_if(
                    panic == Some(true),
                )) as u32,
                unverified_native_owners: (old(self).inventory().unverified_native_owners + one_if(
                    panic is Some,
                )) as usize,
                requests_retired: (old(self).inventory().requests_retired + old(
                    self,
                ).inventory().queued_remaining + in_hand(old(self).work())) as u64,
                producers_remaining: (old(self).inventory().producers_remaining - old(
                    self,
                ).inventory().queued_remaining - in_hand(old(self).work())) as usize,
                queued_remaining: 0,
                ..old(self).inventory()
            }),
    {
        let faulted = match panic {
            None => false,
            Some(payload_abandoned) => {
                self.evidence.panics = self.evidence.panics + 1;
                if payload_abandoned {
                    self.evidence.owner_abandonments = self.evidence.owner_abandonments + 1;
                }
                self.evidence.unverified_native_owners = self.evidence.unverified_native_owners + 1;
                true
            },
        };
        match self.work {
            StartupWork::Starting { .. } => {
                self.evidence.requests_retired = self.evidence.requests_retired + 1;
                self.evidence.producers_remaining = self.evidence.producers_remaining - 1;
                self.work = StartupWork::Lost;
            },
            _ => {},
        }
        let queued: usize = self.evidence.queued_remaining;
        self.evidence.queued_remaining = 0;
        self.evidence.requests_retired = self.evidence.requests_retired + queued as u64;
        self.evidence.producers_remaining = self.evidence.producers_remaining - queued;
        self.finished = true;
        faulted
    }

    /// Whether no native owner can come from this lane any more.
    pub fn producers_closed(&self) -> (r: bool)
        ensures
            r == (self.finished() && self.inventory().producers_remaining == 0),
    {
        self.finished && self.evidence.producers_remaining == 0
    }

    /// The inventory as it is.
    pub fn observe(&self) -> (r: AudioDecoderStartupShutdownEvidence)
        ensures
            r == self.inventory(),
    {
        self.evidence
    }

    /// Records that the worker was joined, and hands out the inventory.
    pub fn join(&mut self, join: StartupJoin) -> (r: AudioDecoderStartupShutdownEvidence)
        requires
            old(self).wf(),
            join is Absent || old(self).supervised(),
        ensures
            final(self).wf(),
            final(self).limit() == old(self).limit(),
            final(self).work() == old(self).work(),
            final(self).finished() == old(self).finished(),
            final(self).supervised() == (old(self).supervised() && join is Absent),
            r == final(self).inventory(),
            r == (match join {
                StartupJoin::Absent => old(self).inventory(),
                StartupJoin::CurrentThread => AudioDecoderStartupShutdownEvidence {
                    owner_abandonments: (old(self).inventory().owner_abandonments + 1) as u32,
                    ..old(self).inventory()
                },
                StartupJoin::Joined => AudioDecoderStartupShutdownEvidence {
                    workers_joined: 1,
                    publication_missing: (old(self).inventory().publication_missing + one_if(
                        !old(self).finished(),
                    )) as u32,
                    ..old(self).inventory()
                },
                StartupJoin::Panicked { payload_abandoned } => AudioDecoderStartupShutdownEvidence {
                    workers_joined: 1,
                    panics: (old(self).inventory().panics + 1) as u32,
                    owner_abandonments: (old(self).inventory().owner_abandonments + one_if(
                        payload_abandoned,
                    )) as u32,
                    publication_missing: (old(self).inventory().publication_missing + one_if(
                        !old(self).finished(),
                    )) as u32,
                    ..old(self).inventory()
                },
            }),
    {
        match join {
            StartupJoin::Absent => {},
            StartupJoin::CurrentThread => {
                self.supervised = false;
                self.evidence.owner_abandonments = self.evidence.owner_abandonments + 1;
            },
            StartupJoin::Joined => {
                self.supervised = false;
                self.evidence.workers_joined = self.evidence.workers_joined + 1;
                if !self.finished {
                    self.evidence.publication_missing = self.evidence.publication_missing + 1;
                }
            },
            StartupJoin::Panicked { payload_abandoned } => {
                self.supervised = false;
                self.evidence.workers_joined = self.evidence.workers_joined + 1;
                self.evidence.panics = self.evidence.panics + 1;
                if payload_abandoned {
                    self.evidence.owner_abandonments = self.evidence.owner_abandonments + 1;
                }
                if !self.finished {
                    self.evidence.publication_missing = self.evidence.publication_missing + 1;
                }
            },
        }
        self.evidence
    }
}

/// What a reader that waits for its result does: cancellation and shutdown come before
/// a result that is there.
pub fn await_completion(around: Surroundings, look: CompletionLook) -> (r: Result<bool, DecodeFault>)
    ensures
        match r {
            Ok(delivered) => !around.interrupted() && !(look is Disconnected) && delivered == (
            look is Delivered),
            Err(fault) => if around.interrupted() {
                fault is Canceled
            } else {
                fault is StartupUnavailable && look is Disconnected
            },
        },
{
    if around.canceled || around.shutdown {
        return Err(DecodeFault::Canceled);
    }
    match look {
        CompletionLook::Delivered => Ok(true),
        CompletionLook::Disconnected => Err(DecodeFault::StartupUnavailable),
        CompletionLook::Timeout => Ok(false),
    }
}

/// Once the worker has ended without a panic and was joined, and no result is open any
/// more, the lane has released all it ever owned.
pub proof fn settled_lanes_are_released(lane: StartupLane)
    requires
        lane.wf(),
        lane.finished(),
        lane.inventory().workers_joined == 1,
        lane.inventory().start_failures == 0,
        lane.inventory().panics == 0,
        lane.inventory().publication_missing == 0,
        lane.inventory().owner_abandonments == 0,
        lane.inventory().unverified_native_owners == 0,
        lane.inventory().producers_remaining == 0,
    ensures
        lane.inventory().worker_closed(),
        lane.inventory().without_failures(),
        lane.inventory().requests_accounted(),
        lane.inventory().nothing_remains(),
{
}

/// At any time every admitted request is claimed, retired, or still counted at one stage
/// that remains; and only as many were canceled before their start as left the queue.
pub proof fn requests_are_conserved(lane: StartupLane)
    requires
        lane.wf(),
        !(lane.work() is Lost),
    ensures
        lane.inventory().requests_admitted == lane.inventory().requests_claimed
            + lane.inventory().requests_retired + lane.inventory().queued_remaining
            + lane.inventory().in_flight_remaining + lane.inventory().unclaimed_results_remaining,
        lane.inventory().canceled_before_spawn <= lane.inventory().requests_admitted
            - lane.inventory().queued_remaining,
{
}

} // verus!
