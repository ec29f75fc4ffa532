//! Retirement of sessions: the bounded queue of owners, the worker that ends them, and
//! the receipt of a consuming shutdown.

use crate::audio_source::evidence::{
    abandoned, doubts_persist, merged, no_evidence, one_if, retirement_failed,
    teardown_retirement_failed, AudioWindowDecoderShutdownEvidence,
};
use vstd::prelude::*;

verus! {

/// Owners that wait to be retired, in the order of arrival.
pub struct DecoderTeardownQueue<T> {
    owners: Vec<T>,
    closed: bool,
    capacity: usize,
}

/// What handing owners to the queue brings.
pub struct QueuePush<T> {
    /// The owners that the queue did not take, in order.
    pub overflow: Vec<T>,
    /// Whether the teardown worker has to be woken.
    pub notify: bool,
}

/// What handing owners to teardown brings.
pub struct Enqueued<T> {
    /// Whether every owner was taken.
    pub accepted: bool,
    /// Whether the decoder is faulted: an owner that was not taken cannot be retired.
    pub faulted: bool,
    /// Owners that were not taken. They are left alone for good.
    pub overflow: Vec<T>,
    /// What the owners that were not taken add to the evidence.
    pub evidence: AudioWindowDecoderShutdownEvidence,
    /// Whether the teardown worker has to be woken.
    pub notify: bool,
}

/// How many of the offered owners a queue takes.
pub open spec fn taken(waiting: nat, closed: bool, capacity: nat, offered: nat) -> nat {
    if closed || waiting >= capacity {
        0
    } else if offered <= capacity - waiting {
        offered
    } else {
        (capacity - waiting) as nat
    }
}

impl<T> DecoderTeardownQueue<T> {
    /// The owners that wait.
    pub closed spec fn waiting(&self) -> Seq<T> {
        self.owners@
    }

    /// Whether no owner is taken any more.
    pub closed spec fn is_closed(&self) -> bool {
        self.closed
    }

    /// The most owners that wait at a time.
    pub closed spec fn room(&self) -> nat {
        self.capacity as nat
    }

    /// The queue never holds more than it has room for.
    pub open spec fn wf(&self) -> bool {
        1 <= self.room() && self.waiting().len() <= self.room()
    }

    /// An open queue with room for at least one owner.
    pub fn new(capacity: usize) -> (queue: DecoderTeardownQueue<T>)
        ensures
            queue.wf(),
            queue.waiting() == Seq::<T>::empty(),
            !queue.is_closed(),
            queue.room() == (if capacity == 0 {
                1
            } else {
                capacity as nat
            }),
    {
        let capacity: usize = if capacity == 0 {
            1
        } else {
            capacity
        };
        DecoderTeardownQueue { owners: Vec::new(), closed: false, capacity }
    }

    /// Takes as many owners as there is room for, in order. A closed queue takes none.
    pub fn push(&mut self, owners: Vec<T>) -> (r: QueuePush<T>)
        requires
            old(self).wf(),
        ensures
            final(self).wf(),
            final(self).room() == old(self).room(),
            final(self).is_closed() == old(self).is_closed(),
            ({
                let count = taken(
                    old(self).waiting().len(),
                    old(self).is_closed(),
                    old(self).room(),
                    owners@.len(),
                ) as int;
                &&& final(self).waiting() == old(self).waiting() + owners@.take(count)
                &&& r.overflow@ == owners@.skip(count)
                &&& r.notify == (count > 0)
            }),
    {
        let ghost offered = owners@;
        let ghost before = self.owners@;
        let mut rest = owners;
        if self.closed {
            assert(before + offered.take(0) =~= before);
            assert(offered.skip(0) =~= offered);
            return QueuePush { overflow: rest, notify: false };
        }
        let available: usize = self.capacity - self.owners.len();
        let accepted: usize = if available < rest.len() {
            available
        } else {
            rest.len()
        };
        let mut i: usize = 0;
        assert(before + offered.take(0) =~= before);
        assert(offered.skip(0) =~= offered);
        while i < accepted
            invariant
                i <= accepted <= offered.len(),
                rest@ == offered.skip(i as int),
                self.owners@ == before + offered.take(i as int),
                self.capacity == old(self).capacity,
                self.closed == old(self).closed,
            decreases accepted - i,
        {
            let owner = rest.remove(0);
            assert(owner == offered[i as int]);
            self.owners.push(owner);
            i += 1;
            assert(rest@ =~= offered.skip(i as int));
            assert(self.owners@ =~= before + offered.take(i as int));
        }
        QueuePush { overflow: rest, notify: accepted > 0 }
    }

    /// Hands owners to teardown. Owners that are not taken are abandoned, which shows in
    /// the evidence.
    pub fn enqueue_teardown(&mut self, owners: Vec<T>) -> (r: Enqueued<T>)
        requires
            old(self).wf(),
        ensures
            final(self).wf(),
            final(self).room() == old(self).room(),
            final(self).is_closed() == old(self).is_closed(),
            ({
                let count = taken(
                    old(self).waiting().len(),
                    old(self).is_closed(),
                    old(self).room(),
                    owners@.len(),
                ) as int;
                &&& final(self).waiting() == old(self).waiting() + owners@.take(count)
                &&& r.overflow@ == owners@.skip(count)
                &&& r.accepted == (count == owners@.len())
                &&& r.faulted == !r.accepted
                &&& r.notify == (count > 0)
                &&& r.evidence == if r.accepted {
                    no_evidence()
                } else {
                    abandoned(no_evidence(), (owners@.len() - count) as usize)
                }
            }),
    {
        let mut evidence = AudioWindowDecoderShutdownEvidence::default();
        let pushed = self.push(owners);
        let accepted = pushed.overflow.len() == 0;
        if !accepted {
            evidence.abandon_owners(pushed.overflow.len());
        }
        Enqueued { accepted, faulted: !accepted, overflow: pushed.overflow, evidence, notify: pushed.notify }
    }

    /// Takes all waiting owners.
    pub fn take_pending(&mut self) -> (owners: Vec<T>)
        requires
            old(self).wf(),
        ensures
            final(self).wf(),
            final(self).room() == old(self).room(),
            final(self).is_closed() == old(self).is_closed(),
            owners@ == old(self).waiting(),
            final(self).waiting() == Seq::<T>::empty(),
    {
        let mut owners: Vec<T> = Vec::new();
        core::mem::swap(&mut owners, &mut self.owners);
        assert(self.owners@ =~= Seq::<T>::empty());
        owners
    }

    /// Closes the queue, and takes all waiting owners.
    pub fn close_and_take_pending(&mut self) -> (owners: Vec<T>)
        requires
            old(self).wf(),
        ensures
            final(self).wf(),
            final(self).room() == old(self).room(),
            final(self).is_closed(),
            owners@ == old(self).waiting(),
            final(self).waiting() == Seq::<T>::empty(),
    {
        self.closed = true;
        self.take_pending()
    }

    /// The owners that the worker has to end now. Without any it sleeps, unless the
    /// decoder shuts down and either the first sweep is due or no owner can come any more.
    pub fn take_work(
        &mut self,
        shutdown: bool,
        initial_sweep_pending: bool,
        producers_closed: bool,
    ) -> (r: Option<Vec<T>>)
        requires
            old(self).wf(),
        ensures
            final(self).wf(),
            final(self).room() == old(self).room(),
            final(self).is_closed() == old(self).is_closed(),
            final(self).waiting() == Seq::<T>::empty(),
            match r {
                Some(owners) => owners@ == old(self).waiting(),
                None => old(self).waiting().len() == 0,
            },
            r is Some <==> old(self).waiting().len() > 0 || (shutdown && (initial_sweep_pending
                || producers_closed)),
    {
        let owners = self.take_pending();
        if owners.len() > 0 || (shutdown && (initial_sweep_pending || producers_closed)) {
            Some(owners)
        } else {
            None
        }
    }
}

/// What ending an owner brought.
#[derive(Debug, Clone, Copy, PartialEq, Eq, Structural)]
pub enum OwnerEnd {
    /// It ended, and left evidence.
    Ended(AudioWindowDecoderShutdownEvidence),
    /// Ending it panicked. The payload was disposed, or abandoned as its type is unknown.
    Panicked { payload_abandoned: bool },
}

/// Evidence of an owner, with the readers that still hold its slot. One that panicked
/// remains as a session and as a handle, and is abandoned.
pub open spec fn owner_evidence(end: OwnerEnd, readers: usize) -> AudioWindowDecoderShutdownEvidence {
    match end {
        OwnerEnd::Ended(evidence) => AudioWindowDecoderShutdownEvidence {
            external_session_slot_references: evidence.external_session_slot_references.saturating_add(
                readers,
            ),
            ..evidence
        },
        OwnerEnd::Panicked { payload_abandoned } => AudioWindowDecoderShutdownEvidence {
            sessions_remaining: 1,
            external_session_slot_references: readers,
            resource_handles_remaining: 1,
            shutdown_worker_panics: 1,
            shutdown_worker_owner_abandonments: (1 + one_if(payload_abandoned)) as u32,
            ..no_evidence()
        },
    }
}

/// Evidence of an owner that was ended. `readers` still hold its slot.
pub fn terminate_teardown_owner(
    end: OwnerEnd,
    readers: usize,
) -> (r: AudioWindowDecoderShutdownEvidence)
    ensures
        r == owner_evidence(end, readers),
{
    match end {
        OwnerEnd::Ended(evidence) => {
            let mut evidence = evidence;
            evidence.external_session_slot_references =
                evidence.external_session_slot_references.saturating_add(readers);
            evidence
        },
        OwnerEnd::Panicked { payload_abandoned } => {
            let mut evidence = AudioWindowDecoderShutdownEvidence::default();
            evidence.sessions_remaining = 1;
            evidence.external_session_slot_references = readers;
            evidence.resource_handles_remaining = 1;
            evidence.shutdown_worker_panics = 1;
            evidence.shutdown_worker_owner_abandonments =
                if payload_abandoned {
                    2
                } else {
                    1
                };
            evidence
        },
    }
}

/// An owner that was ended: how, and by how many readers its slot is still held.
#[derive(Debug, Clone, Copy, PartialEq, Eq, Structural)]
pub struct OwnerReport {
    pub end: OwnerEnd,
    pub readers: usize,
}

/// Evidence of several owners together.
pub open spec fn owners_evidence(reports: Seq<OwnerReport>) -> AudioWindowDecoderShutdownEvidence
    decreases reports.len(),
{
    if reports.len() == 0 {
        no_evidence()
    } else {
        merged(
            owners_evidence(reports.drop_last()),
            owner_evidence(reports.last().end, reports.last().readers),
        )
    }
}

/// Evidence of several owners together.
pub fn terminate_teardown_owners(reports: &[OwnerReport]) -> (r: AudioWindowDecoderShutdownEvidence)
    ensures
        r == owners_evidence(reports@),
{
    let mut evidence = AudioWindowDecoderShutdownEvidence::default();
    let len: usize = reports.len();
    let mut i: usize = 0;
    while i < len
        invariant
            i <= len == reports@.len(),
            evidence == owners_evidence(reports@.take(i as int)),
        decreases len - i,
    {
        assert(reports@.take(i + 1).drop_last() =~= reports@.take(i as int));
        evidence.merge(terminate_teardown_owner(reports[i].end, reports[i].readers));
        i += 1;
    }
    assert(reports@.take(len as int) =~= reports@);
    evidence
}

/// What one look at a session of the table brings at the end of a shutdown.
#[derive(Debug, Clone, Copy, PartialEq, Eq, Structural)]
pub enum EntryLook {
    /// A reader works with it. `readers` hold its slot.
    Busy { readers: usize },
    /// It was ended.
    Ended(OwnerReport),
}

/// Evidence of a session that is still in use when the time is up.
pub open spec fn overdue(
    evidence: AudioWindowDecoderShutdownEvidence,
    readers: usize,
) -> AudioWindowDecoderShutdownEvidence {
    AudioWindowDecoderShutdownEvidence {
        sessions_remaining: evidence.sessions_remaining.saturating_add(1),
        external_session_slot_references: evidence.external_session_slot_references.saturating_add(
            readers,
        ),
        resource_handles_remaining: evidence.resource_handles_remaining.saturating_add(1),
        shutdown_worker_owner_abandonments: evidence.shutdown_worker_owner_abandonments.saturating_add(
            1,
        ),
        ..evidence
    }
}

/// Evidence with all sessions that ended in one round.
pub open spec fn with_ended(
    evidence: AudioWindowDecoderShutdownEvidence,
    looks: Seq<EntryLook>,
) -> AudioWindowDecoderShutdownEvidence
    decreases looks.len(),
{
    if looks.len() == 0 {
        evidence
    } else {
        let before = with_ended(evidence, looks.drop_last());
        match looks.last() {
            EntryLook::Ended(report) => merged(before, owner_evidence(report.end, report.readers)),
            EntryLook::Busy { .. } => before,
        }
    }
}

/// Evidence with all sessions that were still in use in one round.
pub open spec fn with_overdue(
    evidence: AudioWindowDecoderShutdownEvidence,
    looks: Seq<EntryLook>,
) -> AudioWindowDecoderShutdownEvidence
    decreases looks.len(),
{
    if looks.len() == 0 {
        evidence
    } else {
        let before = with_overdue(evidence, looks.drop_last());
        match looks.last() {
            EntryLook::Ended(_) => before,
            EntryLook::Busy { readers } => overdue(before, readers),
        }
    }
}

/// Whether some session was still in use in one round.
pub open spec fn some_busy(looks: Seq<EntryLook>) -> bool {
    exists|i: int| 0 <= i < looks.len() && (#[trigger] looks[i]) is Busy
}

/// Adds one round over the sessions of the table. The rounds end where no session is in
/// use, or where the time is up: those in use are then abandoned.
pub fn close_round(
    evidence: &mut AudioWindowDecoderShutdownEvidence,
    looks: &[EntryLook],
    time_is_up: bool,
) -> (done: bool)
    ensures
        done == (time_is_up || !some_busy(looks@)),
        *final(evidence) == (if done {
            with_overdue(with_ended(*old(evidence), looks@), looks@)
        } else {
            with_ended(*old(evidence), looks@)
        }),
{
    let len: usize = looks.len();
    let mut busy = false;
    let mut i: usize = 0;
    assert(looks@.take(0) =~= Seq::<EntryLook>::empty());
    while i < len
        invariant
            i <= len == looks@.len(),
            *evidence == with_ended(*old(evidence), looks@.take(i as int)),
            busy == some_busy(looks@.take(i as int)),
        decreases len - i,
    {
        assert(looks@.take(i + 1).drop_last() =~= looks@.take(i as int));
        let ghost shorter = looks@.take(i as int);
        let ghost longer = looks@.take(i + 1);
        match looks[i] {
            EntryLook::Ended(report) => {
                evidence.merge(terminate_teardown_owner(report.end, report.readers));
                assert(some_busy(longer) == some_busy(shorter)) by {
                    if some_busy(longer) {
                        let j = choose|j: int| 0 <= j < longer.len() && (#[trigger] longer[j]) is Busy;
                        assert(shorter[j] is Busy);
                    }
                    if some_busy(shorter) {
                        let j = choose|j: int|
                            0 <= j < shorter.len() && (#[trigger] shorter[j]) is Busy;
                        assert(longer[j] is Busy);
                    }
                }
            },
            EntryLook::Busy { .. } => {
                busy = true;
                assert(longer[i as int] is Busy);
            },
        }
        i += 1;
    }
    assert(looks@.take(len as int) =~= looks@);
    if busy && !time_is_up {
        return false;
    }
    let ghost ended = *evidence;
    let mut i: usize = 0;
    while i < len
        invariant
            i <= len == looks@.len(),
            *evidence == with_overdue(ended, looks@.take(i as int)),
        decreases len - i,
    {
        assert(looks@.take(i + 1).drop_last() =~= looks@.take(i as int));
        match looks[i] {
            EntryLook::Ended(_) => {},
            EntryLook::Busy { readers } => {
                evidence.sessions_remaining = evidence.sessions_remaining.saturating_add(1);
                evidence.external_session_slot_references =
                    evidence.external_session_slot_references.saturating_add(readers);
                evidence.resource_handles_remaining =
                    evidence.resource_handles_remaining.saturating_add(1);
                evidence.shutdown_worker_owner_abandonments =
                    evidence.shutdown_worker_owner_abandonments.saturating_add(1);
            },
        }
        i += 1;
    }
    true
}

/// Where the teardown worker stands.
#[derive(Debug, Clone, Copy, PartialEq, Eq, Structural)]
pub enum TeardownPhase {
    /// It ends owners from the queue.
    Retiring,
    /// It ends sessions of the table without readers, once, so that a startup that takes
    /// long does not keep them.
    SweepingIdle,
    /// It asks whether owners can still come.
    AskingProducers,
    /// It takes what is left in the table.
    TakingEntries,
    /// It ends that.
    ClosingEntries,
    /// It takes what came into the table meanwhile.
    TakingLateEntries,
    /// It ends that.
    ClosingLateEntries,
    /// It closes the queue, and ends what waits there.
    Draining,
    Finished,
}

/// What the teardown worker did.
#[derive(Debug, Clone, Copy, PartialEq, Eq, Structural)]
pub enum TeardownEvent {
    /// Owners from the queue were ended. `shutdown` was asked afterwards.
    Retired { evidence: AudioWindowDecoderShutdownEvidence, shutdown: bool },
    /// Sessions without readers were taken from the table and ended.
    IdleSwept { sessions: usize, evidence: AudioWindowDecoderShutdownEvidence },
    /// Whether no owner can come any more.
    Producers { closed: bool },
    /// Sessions were taken from the table, with what was retired elsewhere.
    EntriesTaken { sessions: usize, retired: AudioWindowDecoderShutdownEvidence },
    /// Sessions from the table were ended or abandoned.
    EntriesClosed { evidence: AudioWindowDecoderShutdownEvidence },
    /// The queue was closed, and its owners ended.
    Drained { evidence: AudioWindowDecoderShutdownEvidence },
}

/// The teardown worker between two acts.
#[derive(Debug, Clone, Copy, PartialEq, Eq, Structural)]
pub struct TeardownWorker {
    pub phase: TeardownPhase,
    /// Whether the table was not swept yet.
    pub initial_sweep_pending: bool,
    pub evidence: AudioWindowDecoderShutdownEvidence,
}

/// Evidence with more sessions to retire, and with what became of some.
pub open spec fn counted_in(
    evidence: AudioWindowDecoderShutdownEvidence,
    sessions: usize,
    more: AudioWindowDecoderShutdownEvidence,
) -> AudioWindowDecoderShutdownEvidence {
    merged(
        AudioWindowDecoderShutdownEvidence {
            sessions_before: evidence.sessions_before.saturating_add(sessions),
            ..evidence
        },
        more,
    )
}

/// The worker after an act, where the act is due.
pub open spec fn teardown_step(worker: TeardownWorker, event: TeardownEvent) -> Option<TeardownWorker> {
    match (worker.phase, event) {
        (TeardownPhase::Retiring, TeardownEvent::Retired { evidence, shutdown }) => Some(
            TeardownWorker {
                phase: if !shutdown {
                    TeardownPhase::Retiring
                } else if worker.initial_sweep_pending {
                    TeardownPhase::SweepingIdle
                } else {
                    TeardownPhase::AskingProducers
                },
                initial_sweep_pending: worker.initial_sweep_pending && !shutdown,
                evidence: merged(worker.evidence, evidence),
            },
        ),
        (TeardownPhase::SweepingIdle, TeardownEvent::IdleSwept { sessions, evidence }) => Some(
            TeardownWorker {
                phase: TeardownPhase::AskingProducers,
                evidence: counted_in(worker.evidence, sessions, evidence),
                ..worker
            },
        ),
        (TeardownPhase::AskingProducers, TeardownEvent::Producers { closed }) => Some(
            TeardownWorker {
                phase: if closed {
                    TeardownPhase::TakingEntries
                } else {
                    TeardownPhase::Retiring
                },
                ..worker
            },
        ),
        (TeardownPhase::TakingEntries, TeardownEvent::EntriesTaken { sessions, retired }) => Some(
            TeardownWorker {
                phase: TeardownPhase::ClosingEntries,
                evidence: counted_in(worker.evidence, sessions, retired),
                ..worker
            },
        ),
        (TeardownPhase::ClosingEntries, TeardownEvent::EntriesClosed { evidence }) => Some(
            TeardownWorker {
                phase: TeardownPhase::TakingLateEntries,
                evidence: merged(worker.evidence, evidence),
                ..worker
            },
        ),
        (TeardownPhase::TakingLateEntries, TeardownEvent::EntriesTaken { sessions, retired }) => Some(
            TeardownWorker {
                phase: TeardownPhase::ClosingLateEntries,
                evidence: counted_in(worker.evidence, sessions, retired),
                ..worker
            },
        ),
        (TeardownPhase::ClosingLateEntries, TeardownEvent::EntriesClosed { evidence }) => Some(
            TeardownWorker {
                phase: TeardownPhase::Draining,
                evidence: merged(worker.evidence, evidence),
                ..worker
            },
        ),
        (TeardownPhase::Draining, TeardownEvent::Drained { evidence }) => Some(
            TeardownWorker {
                phase: TeardownPhase::Finished,
                evidence: merged(worker.evidence, evidence),
                ..worker
            },
        ),
        _ => None,
    }
}

/// Whether an act shows that no session may be opened any more.
pub open spec fn shows_fault(event: TeardownEvent) -> bool {
    match event {
        TeardownEvent::Retired { evidence, .. } => retirement_failed(evidence),
        TeardownEvent::IdleSwept { evidence, .. } => retirement_failed(evidence),
        _ => false,
    }
}

/// The evidence that an act reports.
pub open spec fn reported_by(event: TeardownEvent) -> AudioWindowDecoderShutdownEvidence {
    match event {
        TeardownEvent::Retired { evidence, .. } => evidence,
        TeardownEvent::IdleSwept { evidence, .. } => evidence,
        TeardownEvent::Producers { .. } => no_evidence(),
        TeardownEvent::EntriesTaken { retired, .. } => retired,
        TeardownEvent::EntriesClosed { evidence } => evidence,
        TeardownEvent::Drained { evidence } => evidence,
    }
}

/// Whether a decoder may go on opening sessions after an act.
#[derive(Debug, Clone, Copy, PartialEq, Eq, Structural)]
pub enum TeardownVerdict {
    /// The act was not due; nothing changed.
    NotDue,
    Sound,
    /// Sessions are in doubt: none may be opened any more.
    Faulted,
}

impl TeardownWorker {
    /// A worker that has not done anything.
    pub fn new() -> (worker: TeardownWorker)
        ensures
            worker == (TeardownWorker {
                phase: TeardownPhase::Retiring,
                initial_sweep_pending: true,
                evidence: no_evidence(),
            }),
    {
        TeardownWorker {
            phase: TeardownPhase::Retiring,
            initial_sweep_pending: true,
            evidence: AudioWindowDecoderShutdownEvidence::default(),
        }
    }

    /// Records an act, and moves on to the next one.
    pub fn advance(&mut self, event: TeardownEvent) -> (verdict: TeardownVerdict)
        ensures
            match teardown_step(*old(self), event) {
                Some(next) => {
                    &&& *final(self) == next
                    &&& verdict == if shows_fault(event) {
                        TeardownVerdict::Faulted
                    } else {
                        TeardownVerdict::Sound
                    }
                },
                None => *final(self) == *old(self) && verdict == TeardownVerdict::NotDue,
            },
    {
        match (self.phase, event) {
            (TeardownPhase::Retiring, TeardownEvent::Retired { evidence, shutdown }) => {
                self.evidence.merge(evidence);
                if shutdown {
                    self.phase =
                    if self.initial_sweep_pending {
                        TeardownPhase::SweepingIdle
                    } else {
                        TeardownPhase::AskingProducers
                    };
                    self.initial_sweep_pending = false;
                }
                if teardown_retirement_failed(&evidence) {
                    TeardownVerdict::Faulted
                } else {
                    TeardownVerdict::Sound
                }
            },
            (TeardownPhase::SweepingIdle, TeardownEvent::IdleSwept { sessions, evidence }) => {
                self.evidence.sessions_before =
                    self.evidence.sessions_before.saturating_add(sessions);
                self.evidence.merge(evidence);
                self.phase = TeardownPhase::AskingProducers;
                if teardown_retirement_failed(&evidence) {
                    TeardownVerdict::Faulted
                } else {
                    TeardownVerdict::Sound
                }
            },
            (TeardownPhase::AskingProducers, TeardownEvent::Producers { closed }) => {
                self.phase =
                if closed {
                    TeardownPhase::TakingEntries
                } else {
                    TeardownPhase::Retiring
                };
                TeardownVerdict::Sound
            },
            (TeardownPhase::TakingEntries, TeardownEvent::EntriesTaken { sessions, retired }) => {
                self.evidence.sessions_before =
                    self.evidence.sessions_before.saturating_add(sessions);
                self.evidence.merge(retired);
                self.phase = TeardownPhase::ClosingEntries;
                TeardownVerdict::Sound
            },
            (TeardownPhase::ClosingEntries, TeardownEvent::EntriesClosed { evidence }) => {
                self.evidence.merge(evidence);
                self.phase = TeardownPhase::TakingLateEntries;
                TeardownVerdict::Sound
            },
            (TeardownPhase::TakingLateEntries, TeardownEvent::EntriesTaken { sessions, retired }) => {
                self.evidence.sessions_before =
                    self.evidence.sessions_before.saturating_add(sessions);
                self.evidence.merge(retired);
                self.phase = TeardownPhase::ClosingLateEntries;
                TeardownVerdict::Sound
            },
            (TeardownPhase::ClosingLateEntries, TeardownEvent::EntriesClosed { evidence }) => {
                self.evidence.merge(evidence);
                self.phase = TeardownPhase::Draining;
                TeardownVerdict::Sound
            },
            (TeardownPhase::Draining, TeardownEvent::Drained { evidence }) => {
                self.evidence.merge(evidence);
                self.phase = TeardownPhase::Finished;
                TeardownVerdict::Sound
            },
            _ => TeardownVerdict::NotDue,
        }
    }
}

/// The worker after a series of acts, as far as all of them are due.
pub open spec fn teardown_run(worker: TeardownWorker, events: Seq<TeardownEvent>) -> Option<
    TeardownWorker,
>
    decreases events.len(),
{
    if events.len() == 0 {
        Some(worker)
    } else {
        match teardown_run(worker, events.drop_last()) {
            Some(before) => teardown_step(before, events.last()),
            None => None,
        }
    }
}

/// No doubt is lost on the way to the terminal evidence: it is clean only where every
/// single act reported clean evidence.
pub proof fn teardown_loses_no_doubt(worker: TeardownWorker, events: Seq<TeardownEvent>)
    requires
        teardown_run(worker, events) is Some,
    ensures
        teardown_run(worker, events)->0.evidence.clean() == (worker.evidence.clean() && forall|
            i: int,
        |
            0 <= i < events.len() ==> reported_by(#[trigger] events[i]).clean()),
    decreases events.len(),
{
    if events.len() > 0 {
        let head = events.drop_last();
        teardown_loses_no_doubt(worker, head);
        let before = teardown_run(worker, head)->0;
        let last = events.last();
        let more = reported_by(last);
        doubts_persist(before.evidence, more);
        match last {
            TeardownEvent::IdleSwept { sessions, .. } => {
                doubts_persist(
                    AudioWindowDecoderShutdownEvidence {
                        sessions_before: before.evidence.sessions_before.saturating_add(sessions),
                        ..before.evidence
                    },
                    more,
                );
            },
            TeardownEvent::EntriesTaken { sessions, .. } => {
                doubts_persist(
                    AudioWindowDecoderShutdownEvidence {
                        sessions_before: before.evidence.sessions_before.saturating_add(sessions),
                        ..before.evidence
                    },
                    more,
                );
            },
            _ => {},
        }
        assert(events[events.len() - 1] == last);
        assert forall|i: int| 0 <= i < head.len() implies head[i] == events[i] by {}
        if worker.evidence.clean() && forall|i: int|
            0 <= i < events.len() ==> reported_by(#[trigger] events[i]).clean() {
            assert forall|i: int| 0 <= i < head.len() implies reported_by(
                #[trigger] head[i],
            ).clean() by {
                assert(head[i] == events[i]);
            }
        }
    }
}

/// The worker never finishes while owners can still come: an answer that none can come
/// any more stands before its end, and so does a look at a shutdown.
pub proof fn teardown_waits_for_producers(events: Seq<TeardownEvent>)
    requires
        teardown_run(fresh_worker(), events) is Some,
        teardown_run(fresh_worker(), events)->0.phase is Finished,
    ensures
        exists|i: int|
            0 <= i < events.len() && #[trigger] events[i] == (TeardownEvent::Producers {
                closed: true,
            }),
        exists|i: int|
            0 <= i < events.len() && ((#[trigger] events[i]) matches TeardownEvent::Retired {
                shutdown,
                ..
            } && shutdown),
{
    lemma_producers(events);
}

/// A worker that has not done anything.
pub open spec fn fresh_worker() -> TeardownWorker {
    TeardownWorker {
        phase: TeardownPhase::Retiring,
        initial_sweep_pending: true,
        evidence: no_evidence(),
    }
}

/// Whether the worker has passed the question after producers.
pub open spec fn past_producers(phase: TeardownPhase) -> bool {
    !(phase is Retiring) && !(phase is SweepingIdle) && !(phase is AskingProducers)
}

proof fn lemma_producers(events: Seq<TeardownEvent>)
    requires
        teardown_run(fresh_worker(), events) is Some,
    ensures
        ({
            let worker = teardown_run(fresh_worker(), events)->0;
            &&& past_producers(worker.phase) ==> exists|i: int|
                0 <= i < events.len() && #[trigger] events[i] == (TeardownEvent::Producers {
                    closed: true,
                })
            &&& !worker.initial_sweep_pending || !(worker.phase is Retiring) ==> exists|i: int|
                0 <= i < events.len() && ((#[trigger] events[i]) matches TeardownEvent::Retired {
                    shutdown,
                    ..
                } && shutdown)
            &&& !(worker.phase is Retiring) ==> !worker.initial_sweep_pending
        }),
    decreases events.len(),
{
    if events.len() > 0 {
        let head = events.drop_last();
        lemma_producers(head);
        let before = teardown_run(fresh_worker(), head)->0;
        if past_producers(before.phase) {
            let i = choose|i: int|
                0 <= i < head.len() && #[trigger] head[i] == (TeardownEvent::Producers {
                    closed: true,
                });
            assert(events[i] == head[i]);
        }
        if !before.initial_sweep_pending || !(before.phase is Retiring) {
            let i = choose|i: int|
                0 <= i < head.len() && ((#[trigger] head[i]) matches TeardownEvent::Retired {
                    shutdown,
                    ..
                } && shutdown);
            assert(events[i] == head[i]);
        }
        assert(events[events.len() - 1] == events.last());
    }
}

/// A queue takes the owners that are offered as far as it has room, and none once it is
/// closed.
pub proof fn queues_take_what_fits(waiting: nat, closed: bool, capacity: nat, offered: nat)
    requires
        waiting <= capacity,
    ensures
        taken(waiting, closed, capacity, offered) <= offered,
        waiting + taken(waiting, closed, capacity, offered) <= capacity,
        closed ==> taken(waiting, closed, capacity, offered) == 0,
        !closed ==> taken(waiting, closed, capacity, offered) == offered || waiting + taken(
            waiting,
            closed,
            capacity,
            offered,
        ) == capacity,
{
}

/// An owner that ended reports what it found, with its readers. One whose end failed by a
/// panic remains as a session and as a handle, and is abandoned, as its payload may be.
pub proof fn owners_report_what_remains(
    evidence: AudioWindowDecoderShutdownEvidence,
    payload_abandoned: bool,
    readers: usize,
)
    ensures
        readers == 0 ==> owner_evidence(OwnerEnd::Ended(evidence), readers) == evidence,
        readers > 0 ==> !owner_evidence(OwnerEnd::Ended(evidence), readers).clean(),
        evidence.external_session_slot_references + readers <= usize::MAX ==> owner_evidence(
            OwnerEnd::Ended(evidence),
            readers,
        ).external_session_slot_references == evidence.external_session_slot_references + readers,
        ({
            let lost = owner_evidence(OwnerEnd::Panicked { payload_abandoned }, readers);
            &&& retirement_failed(lost)
            &&& lost.sessions_remaining == 1
            &&& lost.resource_handles_remaining == 1
            &&& lost.shutdown_worker_panics == 1
            &&& lost.external_session_slot_references == readers
            &&& lost.shutdown_worker_owner_abandonments == if payload_abandoned {
                2int
            } else {
                1
            }
            &&& lost.child_processes_observed == 0
            &&& lost.sessions_before == 0
        }),
{
}

/// Owners together are clean where each of them is.
pub proof fn owners_hide_nothing(reports: Seq<OwnerReport>)
    ensures
        owners_evidence(reports).clean() <==> forall|i: int|
            0 <= i < reports.len() ==> owner_evidence(
                (#[trigger] reports[i]).end,
                reports[i].readers,
            ).clean(),
    decreases reports.len(),
{
    if reports.len() > 0 {
        let head = reports.drop_last();
        owners_hide_nothing(head);
        let last = reports.last();
        doubts_persist(owners_evidence(head), owner_evidence(last.end, last.readers));
        assert(reports[reports.len() - 1] == last);
        assert forall|i: int| 0 <= i < head.len() implies head[i] == reports[i] by {}
        if owners_evidence(reports).clean() {
            assert forall|i: int| 0 <= i < reports.len() implies owner_evidence(
                (#[trigger] reports[i]).end,
                reports[i].readers,
            ).clean() by {
                if i < head.len() {
                    assert(head[i] == reports[i]);
                }
            }
        }
    }
}

/// A session that is in use when the time is up remains, with its readers.
pub proof fn sessions_in_use_remain(evidence: AudioWindowDecoderShutdownEvidence, readers: usize)
    requires
        evidence.sessions_remaining < usize::MAX,
        evidence.resource_handles_remaining < usize::MAX,
        evidence.shutdown_worker_owner_abandonments < u32::MAX,
        evidence.external_session_slot_references + readers <= usize::MAX,
    ensures
        ({
            let after = overdue(evidence, readers);
            &&& retirement_failed(after)
            &&& after.sessions_remaining == evidence.sessions_remaining + 1
            &&& after.resource_handles_remaining == evidence.resource_handles_remaining + 1
            &&& after.shutdown_worker_owner_abandonments
                == evidence.shutdown_worker_owner_abandonments + 1
            &&& after.external_session_slot_references == evidence.external_session_slot_references
                + readers
            &&& after.sessions_before == evidence.sessions_before
            &&& after.shutdown_worker_panics == evidence.shutdown_worker_panics
        }),
{
}

/// A round over the table adds nothing to the evidence but for sessions that ended in it,
/// and each session in use when the time is up shows.
pub proof fn rounds_add_what_they_find(
    evidence: AudioWindowDecoderShutdownEvidence,
    looks: Seq<EntryLook>,
)
    ensures
        !some_busy(looks) ==> with_overdue(evidence, looks) == evidence,
        some_busy(looks) ==> !with_overdue(evidence, looks).clean(),
        (forall|i: int| 0 <= i < looks.len() ==> (#[trigger] looks[i]) is Busy) ==> with_ended(
            evidence,
            looks,
        ) == evidence,
        !evidence.clean() ==> !with_overdue(evidence, looks).clean(),
    decreases looks.len(),
{
    if looks.len() > 0 {
        let head = looks.drop_last();
        rounds_add_what_they_find(evidence, head);
        assert(looks[looks.len() - 1] == looks.last());
        assert forall|i: int| 0 <= i < head.len() implies head[i] == looks[i] by {}
        if some_busy(looks) && !(looks.last() is Busy) {
            let i = choose|i: int| 0 <= i < looks.len() && (#[trigger] looks[i]) is Busy;
            assert(head[i] is Busy);
        }
        if !some_busy(looks) && some_busy(head) {
            let i = choose|i: int| 0 <= i < head.len() && (#[trigger] head[i]) is Busy;
            assert(looks[i] is Busy);
        }
    }
}

/// The acts of the worker come in one order. It ends owners until a shutdown, sweeps the
/// table once, goes back to ending owners while more can come, then takes and ends what is
/// in the table, takes and ends what came meanwhile, and drains the queue.
pub proof fn acts_come_in_order(worker: TeardownWorker, event: TeardownEvent)
    ensures
        teardown_step(worker, event) is Some <==> match worker.phase {
            TeardownPhase::Retiring => event is Retired,
            TeardownPhase::SweepingIdle => event is IdleSwept,
            TeardownPhase::AskingProducers => event is Producers,
            TeardownPhase::TakingEntries | TeardownPhase::TakingLateEntries => event is EntriesTaken,
            TeardownPhase::ClosingEntries | TeardownPhase::ClosingLateEntries => {
                event is EntriesClosed
            },
            TeardownPhase::Draining => event is Drained,
            TeardownPhase::Finished => false,
        },
        teardown_step(worker, event) matches Some(after) ==> {
            &&& after.phase is SweepingIdle ==> worker.initial_sweep_pending
                && !after.initial_sweep_pending
            &&& after.initial_sweep_pending ==> worker.initial_sweep_pending
            &&& after.phase is TakingEntries <==> event
                == (TeardownEvent::Producers { closed: true })
            &&& event matches TeardownEvent::Retired { shutdown, .. } ==> (after.phase is Retiring
                <==> !shutdown)
            &&& event == (TeardownEvent::Producers { closed: false }) ==> after.phase is Retiring
            &&& worker.phase is SweepingIdle ==> after.phase is AskingProducers
            &&& worker.phase is TakingEntries ==> after.phase is ClosingEntries
            &&& worker.phase is ClosingEntries ==> after.phase is TakingLateEntries
            &&& worker.phase is TakingLateEntries ==> after.phase is ClosingLateEntries
            &&& worker.phase is ClosingLateEntries ==> after.phase is Draining
            &&& worker.phase is Draining ==> after.phase is Finished
        },
{
}

/// Sessions that are taken out of the table to be ended are counted once.
pub proof fn taken_sessions_are_counted(worker: TeardownWorker, event: TeardownEvent)
    requires
        teardown_step(worker, event) is Some,
        worker.evidence.sessions_before + (match event {
            TeardownEvent::IdleSwept { sessions, .. } => sessions as int,
            TeardownEvent::EntriesTaken { sessions, .. } => sessions as int,
            _ => 0,
        }) + reported_by(event).sessions_before <= usize::MAX,
    ensures
        teardown_step(worker, event)->0.evidence.sessions_before == worker.evidence.sessions_before
            + (match event {
            TeardownEvent::IdleSwept { sessions, .. } => sessions as int,
            TeardownEvent::EntriesTaken { sessions, .. } => sessions as int,
            _ => 0,
        }) + reported_by(event).sessions_before,
{
}

} // verus!
