//! The way of one window request: from the slot of its session, over the session itself,
//! to samples or a failure, with everything that has to be given back.

use crate::audio_source::fault::{imposed_fault, DecodeFault, Surroundings};
use crate::audio_source::slots::WindowKind;
use vstd::prelude::*;

verus! {

/// Where a window request stands. Everything but the first two holds the slot and its lock.
#[derive(Debug, Clone, Copy, PartialEq, Eq, Structural)]
pub enum WindowPhase {
    AwaitingSlot,
    AwaitingLock,
    /// The session in the slot is looked at.
    Inspecting,
    /// A session that stands elsewhere is handed to teardown.
    Replacing,
    /// A look for shutdown before a session is used or opened.
    Opening,
    AwaitingPermit,
    /// A look for shutdown while the permit is held.
    HoldingPermit,
    /// The startup lane is waited for.
    AwaitingStartup,
    /// The result of the startup is taken.
    Claiming,
    Decoding,
    /// A session that has ended is handed over, to tell how its process ended.
    Finalizing,
    /// That is waited for.
    AwaitingTerminal,
    /// A session that has ended is handed to teardown.
    RetiringEnded,
    /// All is given back but for the last counts.
    Settling,
    Left,
}

/// A window request on its way.
#[derive(Debug, PartialEq, Eq)]
pub struct WindowRequest {
    pub phase: WindowPhase,
    pub start_frame: i64,
    pub kind: WindowKind,
    /// A session was opened for it.
    pub opened: bool,
    /// The failure so far.
    pub fault: Option<DecodeFault>,
    /// The session has ended.
    pub ended: bool,
    /// The decoder was shutting down after the decode: sessions are left to it.
    pub shutting_down: bool,
}

/// What happened to a window request.
#[derive(Debug, PartialEq, Eq)]
pub enum WindowEvent {
    Slot(Result<(), DecodeFault>),
    Locked(Result<(), DecodeFault>),
    /// The slot holds a session that stands at a frame, or none.
    Inspected { shutdown: bool, next_frame: Option<i64> },
    /// Teardown took what it was offered, or not.
    Offered { accepted: bool, canceled: bool },
    Looked { canceled: bool, shutdown: bool },
    Permit(Result<(), DecodeFault>),
    Startup { result: Result<(), DecodeFault>, canceled: bool },
    /// The startup brought a session.
    Created { canceled: bool, shutdown: bool },
    /// The startup failed, and left parts of a session or none.
    NotCreated { fault: DecodeFault, parts: bool, canceled: bool },
    /// The session decoded the window or failed.
    Decoded {
        result: Result<(), DecodeFault>,
        interrupted: bool,
        shutting_down: bool,
        ended: bool,
        awaiting_terminal: bool,
    },
    Terminal(Result<(), DecodeFault>),
}

/// What has to be handed to teardown on leaving.
#[derive(Debug, Clone, Copy, PartialEq, Eq, Structural)]
pub enum Retirement {
    Nothing,
    /// The session that was just created.
    Created,
    /// Parts of a session that was not completed.
    Parts,
}

/// How a window is counted.
#[derive(Debug, Clone, Copy, PartialEq, Eq, Structural)]
pub struct WindowRecord {
    pub kind: WindowKind,
    pub opened: bool,
    /// Whether the time since the decision to open or use the session counts.
    pub timed: bool,
    pub canceled: bool,
}

/// What is done at the end of a request that did not come to decode.
#[derive(Debug, Clone, Copy, PartialEq, Eq, Structural)]
pub struct Departure {
    /// A lease on the slot is given back.
    pub release_slot: bool,
    /// The slot leaves the table.
    pub remove_slot: bool,
    /// The permit is given back.
    pub release_permit: bool,
    pub retire: Retirement,
    pub record: Option<WindowRecord>,
}

/// What a window request needs next.
#[derive(Debug, Clone, Copy, PartialEq, Eq, Structural)]
pub enum WindowAction {
    LockSlot,
    InspectSession,
    OfferPrevious,
    LookAround,
    AcquirePermit,
    StartSession,
    ClaimStartup,
    Decode,
    OfferForFinalization,
    AwaitTerminal,
    OfferEnded,
    /// The lock and the lease are given back, and the table converges to its capacity
    /// unless the decoder shuts down. Before that a failed session goes to teardown, and
    /// the slot leaves the table.
    Settle { retire_session: bool, remove_slot: bool },
    /// The request is over. Its outcome is the failure that it holds, or none.
    Leave(Departure),
    /// The event does not belong here.
    NotDue,
}

/// A departure that only gives back the slot.
pub open spec fn plain_departure() -> Departure {
    Departure {
        release_slot: true,
        remove_slot: false,
        release_permit: false,
        retire: Retirement::Nothing,
        record: None,
    }
}

/// A request that is over.
pub open spec fn left(
    request: WindowRequest,
    fault: DecodeFault,
    departure: Departure,
) -> (WindowRequest, WindowAction) {
    (
        WindowRequest { phase: WindowPhase::Left, fault: Some(fault), ..request },
        WindowAction::Leave(departure),
    )
}

/// A request that goes on.
pub open spec fn moved(
    request: WindowRequest,
    phase: WindowPhase,
    action: WindowAction,
) -> (WindowRequest, WindowAction) {
    (WindowRequest { phase, ..request }, action)
}

/// How a window comes by its session.
pub open spec fn kind_of(next_frame: Option<i64>, start_frame: i64) -> WindowKind {
    match next_frame {
        None => WindowKind::Cold,
        Some(frame) => if frame == start_frame {
            WindowKind::Sequential
        } else {
            WindowKind::RandomSeek
        },
    }
}

/// A request that has decoded, or failed to, gives back what it holds. A failed session
/// that is still in the slot goes to teardown. The slot of a failed or ended session
/// leaves the table. A decoder that shuts down looks after both itself.
pub open spec fn settled(request: WindowRequest) -> (WindowRequest, WindowAction) {
    let failed = request.fault is Some;
    (
        WindowRequest { phase: WindowPhase::Settling, ..request },
        WindowAction::Settle {
            retire_session: failed && !request.shutting_down && !request.ended,
            remove_slot: (failed || request.ended) && !request.shutting_down,
        },
    )
}

/// A failure unless there is one already.
pub open spec fn first_fault(fault: Option<DecodeFault>, other: DecodeFault) -> Option<DecodeFault> {
    match fault {
        Some(_) => fault,
        None => Some(other),
    }
}

/// A failure, where a result brings one.
pub open spec fn fault_of(result: Result<(), DecodeFault>) -> Option<DecodeFault> {
    match result {
        Ok(()) => None,
        Err(fault) => Some(fault),
    }
}

/// The window request after an event, and what it needs next.
pub open spec fn window_step(request: WindowRequest, event: WindowEvent) -> (
    WindowRequest,
    WindowAction,
) {
    let untimed = |canceled: bool|
        Some(WindowRecord { kind: request.kind, opened: false, timed: false, canceled });
    let timed = |canceled: bool|
        Some(WindowRecord { kind: request.kind, opened: false, timed: true, canceled });
    match (request.phase, event) {
        (WindowPhase::AwaitingSlot, WindowEvent::Slot(result)) => match result {
            Ok(()) => moved(request, WindowPhase::AwaitingLock, WindowAction::LockSlot),
            Err(fault) => left(
                request,
                fault,
                Departure { release_slot: false, ..plain_departure() },
            ),
        },
        (WindowPhase::AwaitingLock, WindowEvent::Locked(result)) => match result {
            Ok(()) => moved(request, WindowPhase::Inspecting, WindowAction::InspectSession),
            Err(fault) => left(request, fault, plain_departure()),
        },
        (WindowPhase::Inspecting, WindowEvent::Inspected { shutdown, next_frame }) => if shutdown {
            left(request, DecodeFault::Canceled, plain_departure())
        } else {
            let kind = kind_of(next_frame, request.start_frame);
            let known = WindowRequest { kind, ..request };
            if kind is RandomSeek {
                moved(known, WindowPhase::Replacing, WindowAction::OfferPrevious)
            } else {
                moved(known, WindowPhase::Opening, WindowAction::LookAround)
            }
        },
        (WindowPhase::Replacing, WindowEvent::Offered { accepted, canceled }) => if accepted {
            moved(request, WindowPhase::Opening, WindowAction::LookAround)
        } else {
            left(
                request,
                DecodeFault::TeardownOverflow,
                Departure { remove_slot: true, record: untimed(canceled), ..plain_departure() },
            )
        },
        (WindowPhase::Opening, WindowEvent::Looked { shutdown, .. }) => if shutdown {
            left(
                request,
                DecodeFault::Canceled,
                Departure { remove_slot: true, ..plain_departure() },
            )
        } else if request.kind is Sequential {
            moved(request, WindowPhase::Decoding, WindowAction::Decode)
        } else {
            moved(request, WindowPhase::AwaitingPermit, WindowAction::AcquirePermit)
        },
        (WindowPhase::AwaitingPermit, WindowEvent::Permit(result)) => match result {
            Ok(()) => moved(request, WindowPhase::HoldingPermit, WindowAction::LookAround),
            Err(fault) => left(request, fault, plain_departure()),
        },
        (WindowPhase::HoldingPermit, WindowEvent::Looked { shutdown, .. }) => if shutdown {
            left(
                request,
                DecodeFault::Canceled,
                Departure { remove_slot: true, release_permit: true, ..plain_departure() },
            )
        } else {
            moved(request, WindowPhase::AwaitingStartup, WindowAction::StartSession)
        },
        (WindowPhase::AwaitingStartup, WindowEvent::Startup { result, canceled }) => match result {
            Ok(()) => moved(request, WindowPhase::Claiming, WindowAction::ClaimStartup),
            Err(fault) => left(
                request,
                fault,
                Departure { remove_slot: true, record: timed(canceled), ..plain_departure() },
            ),
        },
        (WindowPhase::Claiming, WindowEvent::Created { canceled, shutdown }) => if canceled
            || shutdown {
            left(
                request,
                DecodeFault::Canceled,
                Departure {
                    remove_slot: true,
                    retire: Retirement::Created,
                    record: timed(canceled),
                    ..plain_departure()
                },
            )
        } else {
            moved(
                WindowRequest { opened: true, ..request },
                WindowPhase::Decoding,
                WindowAction::Decode,
            )
        },
        (WindowPhase::Claiming, WindowEvent::NotCreated { fault, parts, canceled }) => left(
            request,
            fault,
            Departure {
                remove_slot: true,
                retire: if parts {
                    Retirement::Parts
                } else {
                    Retirement::Nothing
                },
                record: timed(canceled),
                ..plain_departure()
            },
        ),
        (
            WindowPhase::Decoding,
            WindowEvent::Decoded { result, interrupted, shutting_down, ended, awaiting_terminal },
        ) => {
            let fault = if interrupted {
                first_fault(fault_of(result), DecodeFault::Canceled)
            } else {
                fault_of(result)
            };
            let decoded = WindowRequest { fault, ended, shutting_down, ..request };
            if ended && !shutting_down {
                if awaiting_terminal {
                    moved(decoded, WindowPhase::Finalizing, WindowAction::OfferForFinalization)
                } else {
                    moved(decoded, WindowPhase::RetiringEnded, WindowAction::OfferEnded)
                }
            } else {
                settled(decoded)
            }
        },
        (WindowPhase::Finalizing, WindowEvent::Offered { accepted, .. }) => if accepted {
            moved(request, WindowPhase::AwaitingTerminal, WindowAction::AwaitTerminal)
        } else {
            settled(
                WindowRequest {
                    fault: first_fault(request.fault, DecodeFault::TeardownOverflow),
                    ..request
                },
            )
        },
        (WindowPhase::AwaitingTerminal, WindowEvent::Terminal(result)) => match result {
            Ok(()) => settled(request),
            Err(fault) => settled(WindowRequest { fault: Some(fault), ..request }),
        },
        (WindowPhase::RetiringEnded, WindowEvent::Offered { accepted, .. }) => if accepted {
            settled(request)
        } else {
            settled(
                WindowRequest {
                    fault: first_fault(request.fault, DecodeFault::TeardownOverflow),
                    ..request
                },
            )
        },
        (WindowPhase::Settling, WindowEvent::Looked { canceled, shutdown }) => (
            WindowRequest { phase: WindowPhase::Left, ..request },
            WindowAction::Leave(
                Departure {
                    release_slot: false,
                    record: Some(
                        WindowRecord {
                            kind: request.kind,
                            opened: request.opened,
                            timed: true,
                            canceled: canceled || shutdown,
                        },
                    ),
                    ..plain_departure()
                },
            ),
        ),
        _ => (request, WindowAction::NotDue),
    }
}

/// A window request at its beginning. A frame before the beginning counts as the first.
pub open spec fn fresh_request(start_frame: i64) -> WindowRequest {
    WindowRequest {
        phase: WindowPhase::AwaitingSlot,
        start_frame: if start_frame < 0 {
            0
        } else {
            start_frame
        },
        kind: WindowKind::Cold,
        opened: false,
        fault: None,
        ended: false,
        shutting_down: false,
    }
}

impl WindowRequest {
    /// Begins a window request, unless the surroundings forbid it.
    pub fn begin(start_frame: i64, around: Surroundings) -> (r: Result<WindowRequest, DecodeFault>)
        ensures
            match (imposed_fault(around), r) {
                (Some(expected), Err(fault)) => fault == expected,
                (None, Ok(request)) => request == fresh_request(start_frame),
                _ => false,
            },
    {
        match crate::audio_source::fault::check_surroundings(around) {
            Err(fault) => Err(fault),
            Ok(()) => Ok(
                WindowRequest {
                    phase: WindowPhase::AwaitingSlot,
                    start_frame: if start_frame < 0 {
                        0
                    } else {
                        start_frame
                    },
                    kind: WindowKind::Cold,
                    opened: false,
                    fault: None,
                    ended: false,
                    shutting_down: false,
                },
            ),
        }
    }

    fn leave(self, fault: DecodeFault, departure: Departure) -> (r: (WindowRequest, WindowAction))
        ensures
            r == left(self, fault, departure),
    {
        let mut request = self;
        request.phase = WindowPhase::Left;
        request.fault = Some(fault);
        (request, WindowAction::Leave(departure))
    }

    fn go(self, phase: WindowPhase, action: WindowAction) -> (r: (WindowRequest, WindowAction))
        ensures
            r == moved(self, phase, action),
    {
        let mut request = self;
        request.phase = phase;
        (request, action)
    }

    fn settle(self) -> (r: (WindowRequest, WindowAction))
        ensures
            r == settled(self),
    {
        let failed = self.fault.is_some();
        let retire_session = failed && !self.shutting_down && !self.ended;
        let remove_slot = (failed || self.ended) && !self.shutting_down;
        self.go(WindowPhase::Settling, WindowAction::Settle { retire_session, remove_slot })
    }

    fn overflow(self) -> (r: WindowRequest)
        ensures
            r == (WindowRequest {
                fault: first_fault(self.fault, DecodeFault::TeardownOverflow),
                ..self
            }),
    {
        let mut request = self;
        if request.fault.is_none() {
            request.fault = Some(DecodeFault::TeardownOverflow);
        }
        request
    }

    /// Takes a window request one step further.
    pub fn advance(self, event: WindowEvent) -> (r: (WindowRequest, WindowAction))
        ensures
            r == window_step(self, event),
    {
        let plain = Departure {
            release_slot: true,
            remove_slot: false,
            release_permit: false,
            retire: Retirement::Nothing,
            record: None,
        };
        let mut removing = plain;
        removing.remove_slot = true;
        let mut record = WindowRecord {
            kind: self.kind,
            opened: false,
            timed: true,
            canceled: false,
        };
        match (self.phase, event) {
            (WindowPhase::AwaitingSlot, WindowEvent::Slot(result)) => match result {
                Ok(()) => self.go(WindowPhase::AwaitingLock, WindowAction::LockSlot),
                Err(fault) => {
                    let mut departure = plain;
                    departure.release_slot = false;
                    self.leave(fault, departure)
                },
            },
            (WindowPhase::AwaitingLock, WindowEvent::Locked(result)) => match result {
                Ok(()) => self.go(WindowPhase::Inspecting, WindowAction::InspectSession),
                Err(fault) => self.leave(fault, plain),
            },
            (WindowPhase::Inspecting, WindowEvent::Inspected { shutdown, next_frame }) => {
                if shutdown {
                    return self.leave(DecodeFault::Canceled, plain);
                }
                let kind = match next_frame {
                    None => WindowKind::Cold,
                    Some(frame) => if frame == self.start_frame {
                        WindowKind::Sequential
                    } else {
                        WindowKind::RandomSeek
                    },
                };
                let mut known = self;
                known.kind = kind;
                if kind == WindowKind::RandomSeek {
                    known.go(WindowPhase::Replacing, WindowAction::OfferPrevious)
                } else {
                    known.go(WindowPhase::Opening, WindowAction::LookAround)
                }
            },
            (WindowPhase::Replacing, WindowEvent::Offered { accepted, canceled }) => {
                if accepted {
                    self.go(WindowPhase::Opening, WindowAction::LookAround)
                } else {
                    record.timed = false;
                    record.canceled = canceled;
                    removing.record = Some(record);
                    self.leave(DecodeFault::TeardownOverflow, removing)
                }
            },
            (WindowPhase::Opening, WindowEvent::Looked { shutdown, .. }) => {
                if shutdown {
                    self.leave(DecodeFault::Canceled, removing)
                } else if self.kind == WindowKind::Sequential {
                    self.go(WindowPhase::Decoding, WindowAction::Decode)
                } else {
                    self.go(WindowPhase::AwaitingPermit, WindowAction::AcquirePermit)
                }
            },
            (WindowPhase::AwaitingPermit, WindowEvent::Permit(result)) => match result {
                Ok(()) => self.go(WindowPhase::HoldingPermit, WindowAction::LookAround),
                Err(fault) => self.leave(fault, plain),
            },
            (WindowPhase::HoldingPermit, WindowEvent::Looked { shutdown, .. }) => {
                if shutdown {
                    removing.release_permit = true;
                    self.leave(DecodeFault::Canceled, removing)
                } else {
                    self.go(WindowPhase::AwaitingStartup, WindowAction::StartSession)
                }
            },
            (WindowPhase::AwaitingStartup, WindowEvent::Startup { result, canceled }) => match result {
                Ok(()) => self.go(WindowPhase::Claiming, WindowAction::ClaimStartup),
                Err(fault) => {
                    record.canceled = canceled;
                    removing.record = Some(record);
                    self.leave(fault, removing)
                },
            },
            (WindowPhase::Claiming, WindowEvent::Created { canceled, shutdown }) => {
                if canceled || shutdown {
                    record.canceled = canceled;
                    removing.record = Some(record);
                    removing.retire = Retirement::Created;
                    self.leave(DecodeFault::Canceled, removing)
                } else {
                    let mut opened = self;
                    opened.opened = true;
                    opened.go(WindowPhase::Decoding, WindowAction::Decode)
                }
            },
            (WindowPhase::Claiming, WindowEvent::NotCreated { fault, parts, canceled }) => {
                record.canceled = canceled;
                removing.record = Some(record);
                if parts {
                    removing.retire = Retirement::Parts;
                }
                self.leave(fault, removing)
            },
            (
                WindowPhase::Decoding,
                WindowEvent::Decoded { result, interrupted, shutting_down, ended, awaiting_terminal },
            ) => {
                let mut decoded = self;
                decoded.fault =
                match result {
                    Err(fault) => Some(fault),
                    Ok(()) => if interrupted {
                        Some(DecodeFault::Canceled)
                    } else {
                        None
                    },
                };
                decoded.ended = ended;
                decoded.shutting_down = shutting_down;
                if ended && !shutting_down {
                    if awaiting_terminal {
                        decoded.go(WindowPhase::Finalizing, WindowAction::OfferForFinalization)
                    } else {
                        decoded.go(WindowPhase::RetiringEnded, WindowAction::OfferEnded)
                    }
                } else {
                    decoded.settle()
                }
            },
            (WindowPhase::Finalizing, WindowEvent::Offered { accepted, .. }) => {
                if accepted {
                    self.go(WindowPhase::AwaitingTerminal, WindowAction::AwaitTerminal)
                } else {
                    self.overflow().settle()
                }
            },
            (WindowPhase::AwaitingTerminal, WindowEvent::Terminal(result)) => match result {
                Ok(()) => self.settle(),
                Err(fault) => {
                    let mut failed = self;
                    failed.fault = Some(fault);
                    failed.settle()
                },
            },
            (WindowPhase::RetiringEnded, WindowEvent::Offered { accepted, .. }) => {
                if accepted {
                    self.settle()
                } else {
                    self.overflow().settle()
                }
            },
            (WindowPhase::Settling, WindowEvent::Looked { canceled, shutdown }) => {
                record.opened = self.opened;
                record.canceled = canceled || shutdown;
                let mut departure = plain;
                departure.release_slot = false;
                departure.record = Some(record);
                self.go(WindowPhase::Left, WindowAction::Leave(departure))
            },
            _ => (self, WindowAction::NotDue),
        }
    }
}

/// What a reader does after a search for its slot: sessions that left the table went to
/// teardown or could not, and the slot is there or has to be searched again.
pub fn settle_search(slot: Option<u64>, evicted_accepted: bool) -> (r: Result<
    Option<u64>,
    DecodeFault,
>)
    ensures
        match r {
            Ok(found) => evicted_accepted && found == slot,
            Err(fault) => !evicted_accepted && fault is TeardownOverflow,
        },
{
    if evicted_accepted {
        Ok(slot)
    } else {
        Err(DecodeFault::TeardownOverflow)
    }
}

/// What a reader does that waits for the lock of its slot. Shutdown comes before a lock
/// that is free, cancellation only before waiting longer.
pub fn await_lock(shutdown: bool, locked: bool, canceled: bool) -> (r: Result<bool, DecodeFault>)
    ensures
        match r {
            Ok(held) => !shutdown && held == locked && (locked || !canceled),
            Err(fault) => fault is Canceled && (shutdown || (canceled && !locked)),
        },
{
    if shutdown {
        Err(DecodeFault::Canceled)
    } else if locked {
        Ok(true)
    } else if canceled {
        Err(DecodeFault::Canceled)
    } else {
        Ok(false)
    }
}

/// The request after a series of events.
pub open spec fn window_run(request: WindowRequest, events: Seq<WindowEvent>) -> WindowRequest
    decreases events.len(),
{
    if events.len() == 0 {
        request
    } else {
        window_step(window_run(request, events.drop_last()), events.last()).0
    }
}

/// A session was decoded from, and neither the reader nor the decoder was stopped by then.
pub open spec fn good_decode(event: WindowEvent) -> bool {
    event matches WindowEvent::Decoded { result, interrupted, .. } && result is Ok && !interrupted
}

/// Whether the request is past the decode.
pub open spec fn past_decode(phase: WindowPhase) -> bool {
    phase is Finalizing || phase is AwaitingTerminal || phase is RetiringEnded || phase is Settling
}

proof fn lemma_window_run(start_frame: i64, events: Seq<WindowEvent>)
    ensures
        ({
            let request = window_run(fresh_request(start_frame), events);
            &&& (past_decode(request.phase) || request.phase is Left) && request.fault is None
                ==> exists|i: int| 0 <= i < events.len() && good_decode(#[trigger] events[i])
            &&& !past_decode(request.phase) && !(request.phase is Left) ==> request.fault is None
                && !request.ended && !request.shutting_down
        }),
    decreases events.len(),
{
    if events.len() > 0 {
        let head = events.drop_last();
        lemma_window_run(start_frame, head);
        let before = window_run(fresh_request(start_frame), head);
        if (past_decode(before.phase) || before.phase is Left) && before.fault is None {
            let i = choose|i: int| 0 <= i < head.len() && good_decode(#[trigger] head[i]);
            assert(events[i] == head[i]);
        }
        assert(events[events.len() - 1] == events.last());
    }
}

/// A request succeeds only through a decode that succeeded while neither its reader was
/// canceled nor the decoder shutting down.
pub proof fn success_is_never_interrupted(start_frame: i64, events: Seq<WindowEvent>)
    requires
        window_run(fresh_request(start_frame), events).phase is Left,
        window_run(fresh_request(start_frame), events).fault is None,
    ensures
        exists|i: int| 0 <= i < events.len() && good_decode(#[trigger] events[i]),
{
    lemma_window_run(start_frame, events);
}

/// Every request that leaves has either given the slot back on leaving, or before that in
/// settling, or never had it. A failure after the decode never leaves its session in the
/// table, nor does an ended session stay, unless the decoder shuts down and sees to them.
pub proof fn slots_are_given_back(request: WindowRequest, event: WindowEvent)
    requires
        !(request.phase is Left),
    ensures
        window_step(request, event).1 matches WindowAction::Leave(departure) ==> {
            &&& window_step(request, event).0.phase is Left
            &&& departure.release_slot == !(request.phase is AwaitingSlot
                || request.phase is Settling)
        },
        window_step(request, event).1 matches WindowAction::Settle { retire_session, remove_slot }
            ==> {
            let after = window_step(request, event).0;
            &&& after.phase is Settling
            &&& (after.fault is Some || after.ended) && !after.shutting_down ==> remove_slot
            &&& after.fault is Some && !after.ended && !after.shutting_down ==> retire_session
            &&& retire_session ==> remove_slot
        },
{
}

/// A session that was created is either installed and decoded from, or handed to
/// teardown: no path forgets it.
pub proof fn created_sessions_are_kept_or_retired(request: WindowRequest, event: WindowEvent)
    requires
        request.phase is Claiming,
        event is Created,
    ensures
        match window_step(request, event).1 {
            WindowAction::Decode => window_step(request, event).0.opened,
            WindowAction::Leave(departure) => departure.retire is Created,
            _ => false,
        },
{
}

/// A session is used where it stands at the frame that is asked for, and only there. One
/// that stands elsewhere is handed to teardown first, and without one nothing is.
pub proof fn sessions_go_on_only_where_they_stand(
    request: WindowRequest,
    next_frame: Option<i64>,
)
    requires
        request.phase is Inspecting,
    ensures
        ({
            let (after, action) = window_step(
                request,
                WindowEvent::Inspected { shutdown: false, next_frame },
            );
            &&& after.kind is Sequential <==> next_frame == Some(request.start_frame)
            &&& after.kind is Cold <==> next_frame is None
            &&& action is OfferPrevious <==> next_frame is Some && next_frame
                != Some(request.start_frame)
            &&& action is LookAround <==> !(action is OfferPrevious)
            &&& after.start_frame == request.start_frame
        }),
{
}

/// A request begins at the frame that is asked for, or at the first where that lies before
/// it.
pub proof fn requests_begin_where_asked(start_frame: i64)
    ensures
        fresh_request(start_frame).start_frame >= 0,
        start_frame >= 0 ==> fresh_request(start_frame).start_frame == start_frame,
        start_frame < 0 ==> fresh_request(start_frame).start_frame == 0,
        fresh_request(start_frame).fault is None,
        !fresh_request(start_frame).opened,
{
}

/// Decoding needs a session that goes on, or one that was just created for a reader that
/// is neither canceled nor shut out. A session is created only under a permit, and one that
/// goes on never takes a permit. The frame that is asked for never changes.
pub proof fn decoding_needs_a_session(request: WindowRequest, event: WindowEvent)
    ensures
        ({
            let (after, action) = window_step(request, event);
            &&& action is Decode <==> (request.phase is Opening && request.kind is Sequential
                && event is Looked && !event->Looked_shutdown) || (request.phase is Claiming
                && event == WindowEvent::Created { canceled: false, shutdown: false })
            &&& action is AcquirePermit <==> request.phase is Opening && !(
            request.kind is Sequential) && event is Looked && !event->Looked_shutdown
            &&& action is StartSession <==> request.phase is HoldingPermit && event is Looked
                && !event->Looked_shutdown
            &&& after.opened == (request.opened || (request.phase is Claiming && event
                == WindowEvent::Created { canceled: false, shutdown: false }))
            &&& after.start_frame == request.start_frame
            &&& after.kind == request.kind || request.phase is Inspecting
            &&& action is NotDue ==> after == request
        }),
{
}

/// The failure of a decode is the outcome, cancellation is where there was no other, and
/// what teardown refuses later replaces none. Only how the process ended counts more.
pub proof fn the_first_failure_counts(request: WindowRequest, event: WindowEvent)
    requires
        request.phase is Decoding || past_decode(request.phase),
        !(window_step(request, event).1 is NotDue),
    ensures
        ({
            let after = window_step(request, event).0;
            &&& event matches WindowEvent::Decoded { result: Err(fault), .. } ==> after.fault
                == Some(fault)
            &&& event matches WindowEvent::Decoded { result: Ok(()), interrupted, .. }
                ==> after.fault == (if interrupted {
                Some(DecodeFault::Canceled)
            } else {
                None
            })
            &&& event matches WindowEvent::Offered { accepted, .. } ==> {
                &&& accepted || request.fault is Some ==> after.fault == request.fault
                &&& !accepted && request.fault is None ==> after.fault == Some(
                    DecodeFault::TeardownOverflow,
                )
            }
            &&& event matches WindowEvent::Terminal(Err(fault)) ==> after.fault == Some(fault)
            &&& event matches WindowEvent::Terminal(Ok(())) ==> after.fault == request.fault
            &&& event is Looked ==> after.fault == request.fault
        }),
{
}

/// What a request leaves behind goes by how far it came. Only one that was refused its slot
/// gives none back; the slot leaves the table once its session may be gone; the permit is
/// given back where no session took it over; and a window is counted where a session was
/// about to be used.
pub proof fn departures_go_by_the_phase(request: WindowRequest, event: WindowEvent)
    requires
        window_step(request, event).1 is Leave,
    ensures
        ({
            let (after, action) = window_step(request, event);
            let departure = action->Leave_0;
            let phase = request.phase;
            &&& after.phase is Left
            &&& departure.remove_slot == (phase is Replacing || phase is Opening
                || phase is HoldingPermit || phase is AwaitingStartup || phase is Claiming)
            &&& departure.release_permit == (phase is HoldingPermit)
            &&& departure.record is Some <==> phase is Replacing || phase is AwaitingStartup
                || phase is Claiming || phase is Settling
            &&& departure.record is Some ==> {
                &&& departure.record->0.kind == request.kind
                &&& departure.record->0.opened == (phase is Settling && request.opened)
                &&& departure.record->0.timed == !(phase is Replacing)
            }
            &&& departure.retire is Parts <==> phase is Claiming && event is NotCreated
                && event->NotCreated_parts
            &&& departure.retire is Created <==> phase is Claiming && event is Created
            &&& phase is Settling || after.fault is Some
        }),
{
}

/// Settling takes the slot out of the table exactly where its session failed or ended, and
/// hands the session to teardown exactly where it failed and still is there. A decoder that
/// shuts down does both itself.
pub proof fn settling_goes_by_the_outcome(request: WindowRequest, event: WindowEvent)
    requires
        window_step(request, event).1 is Settle,
    ensures
        ({
            let (after, action) = window_step(request, event);
            &&& action->remove_slot <==> !after.shutting_down && (after.fault is Some
                || after.ended)
            &&& action->retire_session <==> !after.shutting_down && after.fault is Some
                && !after.ended
            &&& event matches WindowEvent::Decoded { shutting_down, ended, .. }
                ==> after.shutting_down == shutting_down && after.ended == ended && (shutting_down
                || !ended)
        }),
{
}

} // verus!
