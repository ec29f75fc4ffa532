use std::collections::{HashMap, VecDeque};
use std::path::{Component, Path};

use mondrian_media::audio_source::evidence::{
    AudioDecoderStartupShutdownEvidence, AudioWindowDecoderShutdownEvidence, ChildOutcome,
    PumpKind, PumpOutcome,
};
use mondrian_media::audio_source::fault::{check_surroundings, DecodeFault, Surroundings};
use mondrian_media::audio_source::mapping::{ffmpeg_stream_map, identity_pan_filter};
use mondrian_media::audio_source::permits::{
    clamp_capacity, DecoderSessionPermitPool, PermitDecision, PermitDiagnostics,
};
use mondrian_media::audio_source::process::{
    advance_spawn, append_bounded_tail, exact_seek_partition, spawn_arguments, DecoderArgument,
    PartialInventory, SpawnEvent, SpawnPhase, SpawnStep,
};
use mondrian_media::audio_source::session::{
    await_terminal, pump_stdout, release_parts, terminal_result, DecodeSession, ExitLook,
    PumpRead, StdoutMessage, TerminalLook, TerminalStep,
};
use mondrian_media::audio_source::shutdown::{
    publish_spawn, publish_worker, shutdown_sessions, ShutdownFindings, WorkerJoin, WorkerRun,
    WorkerSpawn, WorkerTerminal,
};
use mondrian_media::audio_source::slots::{
    session_key, AudioSourceIdentity, DecoderState, SessionKey, WindowKind,
};
use mondrian_media::audio_source::startup::{
    await_completion, CompletionLook, NextRequest, StartupAdmission, StartupCompletion,
    StartupJoin, StartupLane,
};
use mondrian_media::audio_source::teardown::{
    close_round, terminate_teardown_owner, terminate_teardown_owners, DecoderTeardownQueue,
    EntryLook, OwnerEnd, OwnerReport, TeardownEvent, TeardownPhase, TeardownVerdict,
    TeardownWorker,
};
use mondrian_media::audio_source::window::{
    await_lock, settle_search, Retirement, WindowAction, WindowEvent, WindowPhase, WindowRequest,
};
use mondrian_media::ffmpeg_tools::{DomainFailure, FfmpegCommandError};
use mondrian_media::info::stream::{AudioChannelLayout, AudioChannelPosition, ChannelLayout};
use mondrian_media::path::{MediaPath, PathComponent};

const LIMIT: usize = 16;

const QUIET: Surroundings = Surroundings { canceled: false, shutdown: false, faulted: false };

const CANCELED: Surroundings = Surroundings { canceled: true, shutdown: false, faulted: false };

/// A path as this system splits it.
fn media_path(text: &str) -> MediaPath {
    let path = Path::new(text);
    MediaPath {
        bytes: text.as_bytes().to_vec(),
        components: path
            .components()
            .map(|component| {
                let bytes = component.as_os_str().as_encoded_bytes().to_vec();
                match component {
                    Component::Prefix(_) => PathComponent::Prefix(bytes),
                    Component::RootDir => PathComponent::RootDir,
                    Component::CurDir => PathComponent::CurDir,
                    Component::ParentDir => PathComponent::ParentDir,
                    Component::Normal(_) => PathComponent::Normal(bytes),
                }
            })
            .collect(),
    }
}

fn stereo() -> AudioChannelLayout {
    AudioChannelLayout::Speakers(vec![
        AudioChannelPosition::FrontLeft,
        AudioChannelPosition::FrontRight,
    ])
}

fn surround_side() -> AudioChannelLayout {
    AudioChannelLayout::Speakers(vec![
        AudioChannelPosition::FrontLeft,
        AudioChannelPosition::FrontRight,
        AudioChannelPosition::FrontCenter,
        AudioChannelPosition::LowFrequencyEffects,
        AudioChannelPosition::SideLeft,
        AudioChannelPosition::SideRight,
    ])
}

fn test_source(index: u32) -> AudioSourceIdentity {
    AudioSourceIdentity {
        path: media_path(&format!("session-{index}.wav")),
        len: 1,
        modified_secs: Some(1),
        modified_nanos: Some(1),
        stream_index: index,
        selected_layout: ChannelLayout::Exact(stereo()),
        selected_revision: Vec::new(),
        channel_layout: stereo(),
    }
}

fn test_session_key(index: u32) -> SessionKey {
    SessionKey { source: test_source(index), sample_rate: 48_000, channel_layout: stereo() }
}

/// What holds one session until teardown ends it.
#[derive(Debug, Clone, Copy, Default)]
struct Owner {
    child: Option<ChildOutcome>,
    stdout: Option<PumpOutcome>,
    stderr: Option<PumpOutcome>,
    permit: bool,
}

const KILLED: Option<ChildOutcome> = Some(ChildOutcome::Reaped { asked: true, killed: true });

/// A decoder whose processes, threads and clocks are played by the test.
struct Rig {
    permits: DecoderSessionPermitPool,
    lane: StartupLane,
    state: DecoderState,
    queue: DecoderTeardownQueue<Owner>,
    worker: TeardownWorker,
    installed: HashMap<u64, Owner>,
    shutdown: bool,
    faulted: bool,
    published: Option<AudioWindowDecoderShutdownEvidence>,
    worker_started: bool,
    lane_started: bool,
}

impl Rig {
    fn with(capacity: usize, teardown: WorkerSpawn, startup: WorkerSpawn) -> Rig {
        let mut rig = Rig {
            permits: DecoderSessionPermitPool::new(capacity, LIMIT),
            lane: StartupLane::new(LIMIT),
            state: DecoderState::new(capacity, LIMIT),
            queue: DecoderTeardownQueue::new(LIMIT),
            worker: TeardownWorker::new(),
            installed: HashMap::new(),
            shutdown: false,
            faulted: false,
            published: None,
            worker_started: true,
            lane_started: false,
        };
        let verdict = publish_spawn(teardown);
        rig.published = verdict.publication;
        rig.worker_started = verdict.publication.is_none();
        let lane = rig.lane.start(startup);
        rig.lane_started = startup == WorkerSpawn::Started;
        rig.faulted = verdict.faulted || lane.faulted;
        rig.shutdown = verdict.request_shutdown || lane.request_shutdown;
        rig
    }

    fn new(capacity: usize) -> Rig {
        Rig::with(capacity, WorkerSpawn::Started, WorkerSpawn::Started)
    }

    /// A decoder with sessions in the table, the first the one used last.
    fn with_sessions(owners: &[Owner]) -> Rig {
        let mut rig = Rig::new(owners.len().max(1));
        for (index, owner) in owners.iter().enumerate().rev() {
            let slot = rig
                .state
                .search_slot(test_session_key(index as u32))
                .slot
                .expect("room for the session");
            rig.state.release_slot(slot);
            rig.installed.insert(slot, *owner);
        }
        rig
    }

    fn around(&self, canceled: bool) -> Surroundings {
        Surroundings { canceled, shutdown: self.shutdown, faulted: self.faulted }
    }

    fn end(&mut self, owner: Owner) -> AudioWindowDecoderShutdownEvidence {
        let evidence = release_parts(
            AudioWindowDecoderShutdownEvidence::default(),
            owner.child,
            owner.stdout,
            owner.stderr,
        );
        if owner.permit {
            self.permits.release();
        }
        evidence
    }

    fn end_all(&mut self, owners: Vec<Owner>) -> AudioWindowDecoderShutdownEvidence {
        let mut reports = Vec::new();
        for owner in owners {
            let evidence = self.end(owner);
            reports.push(OwnerReport { end: OwnerEnd::Ended(evidence), readers: 0 });
        }
        terminate_teardown_owners(&reports)
    }

    /// Lets the teardown worker go on until it sleeps or has finished.
    fn run_worker(&mut self) {
        loop {
            let event = match self.worker.phase {
                TeardownPhase::Retiring => {
                    let closed = self.lane.producers_closed();
                    let work = self.queue.take_work(
                        self.shutdown,
                        self.worker.initial_sweep_pending,
                        closed,
                    );
                    let Some(owners) = work else { return };
                    let evidence = self.end_all(owners);
                    TeardownEvent::Retired { evidence, shutdown: self.shutdown }
                }
                TeardownPhase::SweepingIdle => {
                    let idle = self.state.take_idle();
                    let sessions = idle.len();
                    let owners =
                        idle.iter().filter_map(|e| self.installed.remove(&e.slot)).collect();
                    let evidence = self.end_all(owners);
                    TeardownEvent::IdleSwept { sessions, evidence }
                }
                TeardownPhase::AskingProducers => {
                    TeardownEvent::Producers { closed: self.lane.producers_closed() }
                }
                TeardownPhase::TakingEntries | TeardownPhase::TakingLateEntries => {
                    let entries = self.state.take_all();
                    let retired = self.state.take_retired();
                    let sessions = entries.len();
                    let event = TeardownEvent::EntriesTaken { sessions, retired };
                    assert_eq!(self.worker.advance(event), TeardownVerdict::Sound);
                    let mut looks = Vec::new();
                    for entry in entries {
                        if entry.leases > 0 {
                            looks.push(EntryLook::Busy { readers: entry.leases as usize });
                        } else {
                            let owner = self.installed.remove(&entry.slot).unwrap_or_default();
                            let evidence = self.end(owner);
                            looks.push(EntryLook::Ended(OwnerReport {
                                end: OwnerEnd::Ended(evidence),
                                readers: 0,
                            }));
                        }
                    }
                    let mut evidence = AudioWindowDecoderShutdownEvidence::default();
                    assert!(close_round(&mut evidence, &looks, true));
                    TeardownEvent::EntriesClosed { evidence }
                }
                TeardownPhase::Draining => {
                    let owners = self.queue.close_and_take_pending();
                    TeardownEvent::Drained { evidence: self.end_all(owners) }
                }
                TeardownPhase::Finished => return,
                TeardownPhase::ClosingEntries | TeardownPhase::ClosingLateEntries => {
                    unreachable!("closed as soon as taken")
                }
            };
            match self.worker.advance(event) {
                TeardownVerdict::NotDue => panic!("{event:?} is not due"),
                TeardownVerdict::Sound => {}
                TeardownVerdict::Faulted => self.faulted = true,
            }
        }
    }

    /// Ends the startup worker, which has nothing in hand.
    fn stop_lane(&mut self) {
        if self.lane_started {
            assert_eq!(self.lane.dequeue(true), NextRequest::Stop);
            self.faulted |= self.lane.worker_ended(None);
        }
    }

    fn shutdown_sessions(&mut self) -> AudioWindowDecoderShutdownEvidence {
        let permits_before = self.permits.diagnostics().in_use;
        self.shutdown = true;
        let mut join = WorkerJoin::Absent;
        let mut terminal = WorkerTerminal::NotStarted;
        if self.worker_started {
            self.run_worker();
            assert_eq!(self.worker.phase, TeardownPhase::Finished);
            let verdict = publish_worker(WorkerRun::Completed(self.worker.evidence));
            self.published = Some(verdict.evidence);
            self.faulted |= verdict.faulted;
            terminal = verdict.terminal;
            join = WorkerJoin::Joined;
            self.worker_started = false;
        }
        let startup = if self.lane_started {
            self.lane_started = false;
            self.lane.join(StartupJoin::Joined)
        } else {
            self.lane.join(StartupJoin::Absent)
        };
        let owners = self.queue.close_and_take_pending().len();
        let sessions = self.state.take_all().len();
        let retired = self.state.take_retired();
        let receipt = shutdown_sessions(ShutdownFindings {
            published: self.published,
            startup,
            join,
            terminal,
            owners,
            sessions,
            retired,
            permits_before,
            permits_remaining: self.permits.diagnostics().in_use,
        });
        self.published = Some(receipt);
        receipt
    }
}

/// A request on its way to the startup lane, with its slot and its permit.
fn request_up_to_startup(rig: &mut Rig, index: u32) -> WindowRequest {
    let around = rig.around(false);
    let request = WindowRequest::begin(0, around).expect("a quiet decoder");
    let search = rig.state.search_slot(test_session_key(index));
    assert_eq!(settle_search(search.slot, true), Ok(search.slot));
    let (request, action) = request.advance(WindowEvent::Slot(Ok(())));
    assert_eq!(action, WindowAction::LockSlot);
    let (request, action) = request.advance(WindowEvent::Locked(Ok(())));
    assert_eq!(action, WindowAction::InspectSession);
    let (request, action) =
        request.advance(WindowEvent::Inspected { shutdown: false, next_frame: None });
    assert_eq!(action, WindowAction::LookAround);
    let (request, action) =
        request.advance(WindowEvent::Looked { canceled: false, shutdown: false });
    assert_eq!(action, WindowAction::AcquirePermit);
    assert_eq!(rig.permits.acquire(around), PermitDecision::Granted);
    let (request, action) = request.advance(WindowEvent::Permit(Ok(())));
    assert_eq!(action, WindowAction::LookAround);
    let (request, action) =
        request.advance(WindowEvent::Looked { canceled: false, shutdown: false });
    assert_eq!(action, WindowAction::StartSession);
    assert_eq!(request.phase, WindowPhase::AwaitingStartup);
    request
}

/// Gives up a request at the startup lane.
fn interrupt(rig: &mut Rig, request: WindowRequest, canceled: bool) -> DecodeFault {
    let fault = await_completion(rig.around(canceled), CompletionLook::Timeout)
        .expect_err("the reader does not wait for a process");
    let (request, action) = request.advance(WindowEvent::Startup { result: Err(fault), canceled });
    match action {
        WindowAction::Leave(departure) => {
            assert!(departure.release_slot && departure.remove_slot);
            assert_eq!(departure.retire, Retirement::Nothing);
        }
        other => panic!("{other:?}"),
    }
    request.fault.expect("the reader fails")
}

/// The lane drops a result that nobody waits for: its session goes to teardown.
fn retire_unclaimed(rig: &mut Rig, completion: StartupCompletion, owner: Owner) {
    let offered = rig.queue.enqueue_teardown(vec![owner]);
    assert!(offered.accepted);
    rig.lane.settle(completion);
}

#[test]
fn identity_filter_preserves_every_ordinal_without_conversion() {
    assert_eq!(identity_pan_filter(&AudioChannelLayout::Mono), "pan=1c|c0=c0");
    assert_eq!(
        identity_pan_filter(&surround_side()),
        "pan=6c|c0=c0|c1=c1|c2=c2|c3=c3|c4=c4|c5=c5"
    );
}

#[test]
fn rejected_command_releases_permit_without_creating_a_partial_child_owner() {
    let mut pool = DecoderSessionPermitPool::new(1, LIMIT);
    assert_eq!(pool.acquire(QUIET), PermitDecision::Granted);
    let used = PermitDiagnostics { in_use: 1, capacity: 1, peak_in_use: 1 };
    let free = PermitDiagnostics { in_use: 0, ..used };
    assert_eq!(pool.diagnostics(), used);

    let step = advance_spawn(
        SpawnPhase::Commanding,
        &SpawnEvent::CommandRefused("capsule namespace changed".to_owned()),
    );
    assert!(pool.settle_spawn(&step));
    match step {
        SpawnStep::Failed { fault, owner, permit_released } => {
            assert!(owner.is_none(), "no child or pump owner was created");
            assert!(permit_released);
            assert!(FfmpegCommandError::is_cause_of(&fault.domain_failure()));
            assert_eq!(
                fault,
                DecodeFault::CommandRefused("capsule namespace changed".to_owned())
            );
            assert_eq!(fault.reason(), "capsule namespace changed");
        }
        other => panic!("{other:?}"),
    }
    assert_eq!(pool.diagnostics(), free);
    assert_eq!(pool.acquire(QUIET), PermitDecision::Granted);
    pool.release();
    assert_eq!(pool.diagnostics(), free);
}

#[test]
fn only_refused_commands_are_refusals() {
    for fault in [
        DecodeFault::Canceled,
        DecodeFault::WindowOverflow,
        DecodeFault::StdoutMissing,
        DecodeFault::Reported("qualified FFmpeg command admission rejected".to_owned()),
    ] {
        assert!(!FfmpegCommandError::is_cause_of(&fault.domain_failure()));
    }
    assert!(matches!(
        DecodeFault::WindowOverflow.domain_failure(),
        DomainFailure::Other(chain) if chain.len() == 1
    ));
    assert!(matches!(DecodeFault::Canceled.domain_failure(), DomainFailure::Known(_)));
}

#[test]
fn permits_stay_with_the_parts_of_a_process() {
    let mut pool = DecoderSessionPermitPool::new(1, LIMIT);
    assert_eq!(pool.acquire(QUIET), PermitDecision::Granted);
    let late = advance_spawn(
        SpawnPhase::AfterSpawn { stdout: true, stderr: true },
        &SpawnEvent::Looked { canceled: true },
    );
    assert!(!pool.settle_spawn(&late));
    assert!(!pool.settle_spawn(&SpawnStep::Complete));
    assert_eq!(pool.diagnostics().in_use, 1);
    let early = advance_spawn(SpawnPhase::BeforeSpawn, &SpawnEvent::Looked { canceled: true });
    assert!(pool.settle_spawn(&early));
    assert_eq!(pool.diagnostics().in_use, 0);
}

#[test]
fn stderr_tail_is_strictly_bounded_and_keeps_the_latest_bytes() {
    let mut tail = VecDeque::new();
    append_bounded_tail(&mut tail, b"abcdef", 4);
    append_bounded_tail(&mut tail, b"gh", 4);
    assert_eq!(tail.into_iter().collect::<Vec<_>>(), b"efgh");
}

#[test]
fn a_tail_is_the_same_however_the_bytes_arrive() {
    let mut at_once = VecDeque::new();
    append_bounded_tail(&mut at_once, b"the last words of a process", 9);
    let mut in_pieces = VecDeque::new();
    append_bounded_tail(&mut in_pieces, b"the last words", 9);
    append_bounded_tail(&mut in_pieces, b"", 9);
    append_bounded_tail(&mut in_pieces, b" of a ", 9);
    append_bounded_tail(&mut in_pieces, b"process", 9);
    assert_eq!(at_once, in_pieces);
    assert_eq!(at_once.into_iter().collect::<Vec<_>>(), b"a process");
}

#[test]
fn exact_seek_partition_bounds_decode_preroll_without_shifting_target() {
    let sample_rate = 48_000;
    assert_eq!(exact_seek_partition(0, sample_rate), (0, 0));
    assert_eq!(
        exact_seek_partition(sample_rate.into(), sample_rate),
        (0, 48_000)
    );
    assert_eq!(exact_seek_partition(480_000, sample_rate), (0, 480_000));
    assert_eq!(
        exact_seek_partition(528_000, sample_rate),
        (48_000, 480_000)
    );
    let (input, trim) = exact_seek_partition(i64::MAX, sample_rate);
    assert_eq!(input.saturating_add(trim), i64::MAX);
    assert!(trim <= 480_000);
}

#[test]
fn ffmpeg_stream_map_uses_the_absolute_container_index() {
    assert_eq!(ffmpeg_stream_map(0), "0:0");
    assert_eq!(ffmpeg_stream_map(7), "0:7");
}

#[test]
fn online_session_capacity_reduction_terminates_idle_lru_immediately() {
    let mut rig = Rig::with_sessions(&[Owner::default(); 4]);

    let gone = rig.state.reconfigure_session_capacity(2);

    assert_eq!(gone.len(), 2);
    assert_eq!(rig.state.session_capacity(), 2);
    assert_eq!(rig.state.session_count(), 2);
    assert_eq!(rig.state.entry(0).expect("first").key, test_session_key(0));
    assert_eq!(rig.state.entry(1).expect("second").key, test_session_key(1));
    let diagnostics = rig.state.diagnostics(rig.permits.diagnostics());
    assert_eq!(diagnostics.capacity_reconfigurations, 1);
    assert_eq!(diagnostics.capacity_trim_evictions, 2);
}

#[test]
fn busy_sessions_converge_after_capacity_reduction_without_forced_termination() {
    let mut rig = Rig::new(3);
    let slots: Vec<u64> = (0..3)
        .rev()
        .map(|index| rig.state.search_slot(test_session_key(index)).slot.expect("room"))
        .collect();

    rig.permits.reconfigure(1);
    assert!(rig.state.reconfigure_session_capacity(1).is_empty());
    let busy = rig.state.diagnostics(rig.permits.diagnostics());
    assert_eq!(busy.sessions, 0);
    assert_eq!(busy.session_capacity, 1);
    assert_eq!(busy.sessions_above_capacity, 0);
    assert_eq!(busy.capacity_trim_evictions, 0);
    assert_eq!(rig.state.session_count(), 3);

    rig.state.release_slot(slots[0]);
    rig.state.release_slot(slots[1]);
    assert_eq!(rig.state.converge_capacity(false).len(), 2);

    let converged = rig.state.diagnostics(rig.permits.diagnostics());
    assert_eq!(converged.sessions, 0);
    assert_eq!(converged.sessions_above_capacity, 0);
    assert_eq!(converged.capacity_trim_evictions, 2);
    assert_eq!(rig.state.session_count(), 1);
    assert_eq!(rig.state.entry(0).expect("the busy one").key, test_session_key(0));
}

#[test]
fn physical_session_permit_blocks_replacement_until_retirement() {
    let mut pool = DecoderSessionPermitPool::new(1, LIMIT);
    let used = PermitDiagnostics { in_use: 1, capacity: 1, peak_in_use: 1 };
    assert_eq!(pool.acquire(QUIET), PermitDecision::Granted);
    assert_eq!(pool.acquire(QUIET), PermitDecision::Wait);
    assert_eq!(pool.diagnostics(), used);

    pool.release();
    assert_eq!(pool.acquire(QUIET), PermitDecision::Granted);
    assert_eq!(pool.diagnostics(), used);
    pool.release();
    assert_eq!(pool.diagnostics(), PermitDiagnostics { in_use: 0, ..used });
}

#[test]
fn construction_time_teardown_worker_spawn_failure_fails_closed() {
    let mut rig = Rig::with(
        1,
        WorkerSpawn::Refused { error_abandoned: true },
        WorkerSpawn::Started,
    );
    assert!(rig.faulted && rig.shutdown);
    rig.stop_lane();
    let evidence = rig.shutdown_sessions();

    assert_eq!(evidence.shutdown_worker_start_failures, 1);
    assert_eq!(evidence.shutdown_workers_started, 0);
    assert_eq!(evidence.shutdown_workers_terminated, 0);
    assert!(!evidence.all_resources_released());
}

#[test]
fn construction_time_opaque_spawner_panic_is_contained() {
    let mut rig = Rig::with(
        1,
        WorkerSpawn::Panicked { payload_abandoned: true },
        WorkerSpawn::Started,
    );
    assert!(rig.faulted && rig.shutdown);
    assert!(WindowRequest::begin(0, rig.around(false)).is_err());
    rig.stop_lane();
    let evidence = rig.shutdown_sessions();

    assert_eq!(evidence.shutdown_worker_start_failures, 1);
    assert_eq!(evidence.shutdown_worker_panics, 1);
    assert_eq!(evidence.shutdown_worker_owner_abandonments, 1);
    assert!(!evidence.all_resources_released());
}

#[test]
fn decoders_without_a_startup_worker_refuse_readers() {
    let verdict = publish_spawn(WorkerSpawn::Started);
    assert!(!verdict.faulted && !verdict.request_shutdown && verdict.publication.is_none());
    let rig = Rig::with(
        1,
        WorkerSpawn::Started,
        WorkerSpawn::Refused { error_abandoned: false },
    );
    assert!(rig.faulted && rig.shutdown);
    assert_eq!(rig.published, None);
    assert!(matches!(
        WindowRequest::begin(0, rig.around(false)),
        Err(DecodeFault::Canceled)
    ));
}

#[test]
fn consuming_decoder_shutdown_reclaims_all_idle_session_slots() {
    let mut rig = Rig::with_sessions(&[Owner::default(); 3]);
    rig.stop_lane();

    let evidence = rig.shutdown_sessions();

    assert_eq!(evidence.sessions_before, 3);
    assert_eq!(evidence.sessions_remaining, 0);
    assert!(evidence.all_resources_released());
    assert_eq!(rig.state.diagnostics(rig.permits.diagnostics()).sessions, 0);
}

#[test]
fn concurrent_shutdown_followers_reuse_the_leader_terminal_receipt() {
    let mut rig = Rig::new(1);
    rig.stop_lane();
    let first = rig.shutdown_sessions();
    let second = rig.shutdown_sessions();

    assert_eq!(first, second);
    assert_eq!(first.shutdown_workers_started, 1);
    assert_eq!(first.shutdown_workers_terminated, 1);
    assert!(first.all_resources_released());
}

#[test]
fn consuming_decoder_shutdown_reaps_child_and_joins_both_pumps() {
    let mut rig = Rig::with_sessions(&[Owner {
        child: KILLED,
        stdout: Some(PumpOutcome::Joined),
        stderr: Some(PumpOutcome::Joined),
        permit: false,
    }]);
    rig.stop_lane();

    let evidence = rig.shutdown_sessions();

    assert_eq!(evidence.sessions_before, 1);
    assert_eq!(evidence.child_processes_observed, 1);
    assert_eq!(evidence.child_processes_terminated, 1);
    assert_eq!(evidence.stdout_pump_threads_observed, 1);
    assert_eq!(evidence.stdout_pump_threads_joined, 1);
    assert_eq!(evidence.stderr_pump_threads_observed, 1);
    assert_eq!(evidence.stderr_pump_threads_joined, 1);
    assert!(evidence.all_resources_released());
}

#[test]
fn eof_terminal_handoff_waits_for_delayed_normal_process_exit() {
    let mut rig = Rig::new(1);
    let mut session = DecodeSession::open_at(2, 0);
    session.child = true;
    session.ended = true;
    session.awaiting_terminal_status = true;
    assert_eq!(session.finalize_status(ExitLook::Running, false), TerminalStep::Again);
    assert_eq!(
        session.finalize_status(ExitLook::Exited { success: true }, false),
        TerminalStep::Ended { success: true }
    );
    assert_eq!(terminal_result(true, b""), Ok(()));
    assert_eq!(await_terminal(QUIET, TerminalLook::Settled), Ok(true));
    let evidence = session.terminate(None, None, None);
    rig.state.record_session_shutdown(evidence);
    rig.stop_lane();

    let evidence = rig.shutdown_sessions();
    assert_eq!(evidence.child_processes_observed, 1);
    assert_eq!(evidence.child_processes_terminated, 1);
    assert!(evidence.all_resources_released());
}

#[test]
fn consuming_decoder_shutdown_preserves_pump_panics() {
    let mut rig = Rig::with_sessions(&[Owner {
        stdout: Some(PumpOutcome::Panicked { owner_abandoned: false }),
        stderr: Some(PumpOutcome::Joined),
        ..Owner::default()
    }]);
    rig.stop_lane();

    let evidence = rig.shutdown_sessions();

    assert_eq!(evidence.stdout_pump_threads_observed, 1);
    assert_eq!(evidence.stdout_pump_threads_joined, 0);
    assert_eq!(evidence.stdout_pump_threads_panicked, 1);
    assert_eq!(evidence.stdout_pump_thread_owner_abandonments, 0);
    assert!(!evidence.all_resources_released());
}

#[test]
fn consuming_decoder_shutdown_abandons_opaque_pump_panic_payload() {
    let mut rig = Rig::with_sessions(&[Owner {
        stdout: Some(PumpOutcome::Panicked { owner_abandoned: true }),
        stderr: Some(PumpOutcome::Joined),
        ..Owner::default()
    }]);
    rig.stop_lane();

    let evidence = rig.shutdown_sessions();

    assert_eq!(evidence.stdout_pump_threads_observed, 1);
    assert_eq!(evidence.stdout_pump_threads_joined, 0);
    assert_eq!(evidence.stdout_pump_threads_panicked, 1);
    assert_eq!(evidence.stdout_pump_thread_owner_abandonments, 1);
    assert!(!evidence.all_resources_released());
}

#[test]
fn consuming_decoder_shutdown_aggregates_clean_and_opaque_pump_outcomes() {
    let clean = Owner {
        stdout: Some(PumpOutcome::Joined),
        stderr: Some(PumpOutcome::Joined),
        ..Owner::default()
    };
    let opaque = Owner { stdout: Some(PumpOutcome::Panicked { owner_abandoned: true }), ..clean };
    let mut rig = Rig::with_sessions(&[clean, opaque]);
    rig.stop_lane();

    let evidence = rig.shutdown_sessions();

    assert_eq!(evidence.sessions_before, 2);
    assert_eq!(evidence.stdout_pump_threads_observed, 2);
    assert_eq!(evidence.stdout_pump_threads_joined, 1);
    assert_eq!(evidence.stdout_pump_threads_panicked, 1);
    assert_eq!(evidence.stdout_pump_thread_owner_abandonments, 1);
    assert_eq!(evidence.stderr_pump_threads_observed, 2);
    assert_eq!(evidence.stderr_pump_threads_joined, 2);
    assert_eq!(evidence.stderr_pump_threads_panicked, 0);
    assert_eq!(evidence.stderr_pump_thread_owner_abandonments, 0);
    assert!(!evidence.all_resources_released());
}

#[test]
fn consuming_decoder_shutdown_reports_external_session_slot_references() {
    let mut rig = Rig::new(1);
    rig.state.search_slot(test_session_key(0)).slot.expect("a reader holds it");
    rig.stop_lane();

    let evidence = rig.shutdown_sessions();

    assert_eq!(evidence.sessions_remaining, 1);
    assert_eq!(evidence.external_session_slot_references, 1);
    assert_eq!(evidence.resource_handles_remaining, 1);
    assert!(!evidence.all_resources_released());
}

#[test]
fn cancellation_returns_while_native_startup_is_blocked_and_reaps_late_child() {
    let mut rig = Rig::new(1);
    let request = request_up_to_startup(&mut rig, 0);
    assert_eq!(rig.lane.request_startup(rig.around(false)), StartupAdmission::Admitted);
    assert_eq!(rig.lane.dequeue(false), NextRequest::Start);
    rig.lane.record_attempt(true);

    // The process is being created when the reader is canceled.
    let fault = interrupt(&mut rig, request, true);
    assert!(fault.reason().contains("canceled"));
    rig.state.release_slot(0);
    rig.state.remove_slot(0);
    let physical_while_blocked = rig.permits.diagnostics().in_use;

    let completion = rig.lane.publish();
    retire_unclaimed(&mut rig, completion, Owner { child: KILLED, permit: true, ..Owner::default() });
    rig.stop_lane();
    let evidence = rig.shutdown_sessions();
    assert_eq!(physical_while_blocked, 1);
    assert_eq!(evidence.child_processes_observed, 1);
    assert_eq!(evidence.child_processes_terminated, 1);
    assert!(evidence.all_resources_released(), "{evidence:?}");
    assert_eq!(rig.permits.diagnostics().in_use, 0);
    assert_eq!(evidence.startup.workers_started, 1);
    assert_eq!(evidence.startup.workers_joined, 1);
    assert_eq!(evidence.startup.requests_retired, 1);
}

#[test]
fn queued_cancellation_never_starts_a_second_child_or_releases_inflight_capacity_early() {
    let mut rig = Rig::new(2);
    let first = request_up_to_startup(&mut rig, 0);
    assert_eq!(rig.lane.request_startup(rig.around(false)), StartupAdmission::Admitted);
    assert_eq!(rig.lane.dequeue(false), NextRequest::Start);
    rig.lane.record_attempt(true);
    let second = request_up_to_startup(&mut rig, 1);
    assert_eq!(rig.lane.request_startup(rig.around(false)), StartupAdmission::Admitted);
    let queued = rig.lane.observe().queued_remaining;
    for request in [first, second] {
        assert_eq!(interrupt(&mut rig, request, true), DecodeFault::Canceled);
    }
    for slot in [0, 1] {
        rig.state.release_slot(slot);
        rig.state.remove_slot(slot);
    }
    let physical_before_release = rig.permits.diagnostics().in_use;

    let completion = rig.lane.publish();
    retire_unclaimed(&mut rig, completion, Owner { child: KILLED, permit: true, ..Owner::default() });
    assert_eq!(rig.lane.dequeue(true), NextRequest::Start);
    let step = advance_spawn(SpawnPhase::BeforeSpawn, &SpawnEvent::Looked { canceled: true });
    assert_eq!(
        step,
        SpawnStep::Failed { fault: DecodeFault::Canceled, owner: None, permit_released: true }
    );
    assert!(rig.permits.settle_spawn(&step));
    rig.lane.record_attempt(false);
    let completion = rig.lane.publish();
    rig.lane.settle(completion);
    rig.stop_lane();
    let evidence = rig.shutdown_sessions();
    assert_eq!(queued, 1);
    assert_eq!(physical_before_release, 2);
    assert_eq!(evidence.child_processes_observed, 1);
    assert_eq!(evidence.child_processes_terminated, 1);
    assert_eq!(evidence.startup.requests_admitted, 2);
    assert_eq!(evidence.startup.requests_retired, 2);
    assert_eq!(evidence.startup.canceled_before_spawn, 1);
    assert!(evidence.all_resources_released(), "{evidence:?}");
}

#[test]
fn startup_worker_creation_failure_preserves_the_returned_teardown_owner() {
    let mut rig = Rig::with(
        1,
        WorkerSpawn::Started,
        WorkerSpawn::Refused { error_abandoned: false },
    );
    assert!(WindowRequest::begin(0, rig.around(false)).is_err());
    let evidence = rig.shutdown_sessions();
    assert_eq!(evidence.shutdown_workers_started, 1);
    assert_eq!(evidence.shutdown_workers_terminated, 1);
    assert!(evidence.startup.required && evidence.startup.attempted);
    assert_eq!(evidence.startup.workers_started, 0);
    assert_eq!(evidence.startup.start_failures, 1);
    assert_eq!(evidence.startup.requests_admitted, 0);
    assert!(!evidence.all_resources_released());
}

#[test]
fn partial_native_result_is_transferred_to_actual_teardown() {
    let mut rig = Rig::new(1);
    let request = request_up_to_startup(&mut rig, 0);
    assert_eq!(rig.lane.request_startup(rig.around(false)), StartupAdmission::Admitted);
    assert_eq!(rig.lane.dequeue(false), NextRequest::Start);
    let after = match advance_spawn(
        SpawnPhase::Spawning,
        &SpawnEvent::Spawned { stdout: false, stderr: true },
    ) {
        SpawnStep::Continue(phase) => phase,
        other => panic!("{other:?}"),
    };
    rig.lane.record_attempt(true);
    let (fault, parts) = match advance_spawn(after, &SpawnEvent::Looked { canceled: false }) {
        SpawnStep::Failed { fault, owner, permit_released } => {
            assert!(!permit_released);
            (fault, owner)
        }
        other => panic!("{other:?}"),
    };
    let parts = parts.expect("the process is there");
    assert!(parts.child && parts.permit && !parts.stdout_pump);
    let mut completion = rig.lane.publish();
    assert_eq!(await_completion(rig.around(false), CompletionLook::Delivered), Ok(true));
    let (request, action) =
        request.advance(WindowEvent::Startup { result: Ok(()), canceled: false });
    assert_eq!(action, WindowAction::ClaimStartup);
    assert_eq!(rig.lane.claim(&mut completion), Ok(()));
    let (request, action) =
        request.advance(WindowEvent::NotCreated { fault, parts: true, canceled: false });
    match action {
        WindowAction::Leave(departure) => assert_eq!(departure.retire, Retirement::Parts),
        other => panic!("{other:?}"),
    }
    rig.state.release_slot(0);
    rig.state.remove_slot(0);
    let owner = Owner { child: KILLED, permit: true, ..Owner::default() };
    assert!(rig.queue.enqueue_teardown(vec![owner]).accepted);
    rig.lane.settle(completion);
    rig.stop_lane();
    let evidence = rig.shutdown_sessions();
    let fault = request.fault.expect("the reader fails");
    assert!(fault.reason().contains("did not expose stdout"));
    assert_eq!(evidence.child_processes_observed, 1);
    assert_eq!(evidence.child_processes_terminated, 1);
    assert_eq!(evidence.stdout_pump_threads_observed, 0);
    assert_eq!(evidence.startup.requests_claimed, 1);
    assert!(evidence.all_resources_released(), "{evidence:?}");
}

#[test]
fn ready_unclaimed_completion_keeps_teardown_open_until_actual_retirement() {
    let mut rig = Rig::new(1);
    assert_eq!(rig.permits.acquire(rig.around(false)), PermitDecision::Granted);
    assert_eq!(rig.lane.request_startup(rig.around(false)), StartupAdmission::Admitted);
    assert_eq!(rig.lane.dequeue(false), NextRequest::Start);
    rig.lane.record_attempt(true);
    let completion = rig.lane.publish();
    rig.shutdown = true;
    rig.stop_lane();
    rig.run_worker();
    // A result that is not settled yet can still bring an owner.
    assert_eq!(rig.worker.phase, TeardownPhase::Retiring);
    let physical_before_drop = rig.permits.diagnostics().in_use;
    retire_unclaimed(&mut rig, completion, Owner { child: KILLED, permit: true, ..Owner::default() });
    let evidence = rig.shutdown_sessions();
    assert_eq!(physical_before_drop, 1);
    assert_eq!(evidence.child_processes_observed, 1);
    assert_eq!(evidence.child_processes_terminated, 1);
    assert_eq!(evidence.startup.requests_retired, 1);
    assert!(evidence.all_resources_released(), "{evidence:?}");
}

#[test]
fn startup_panic_preserves_unverified_inventory_and_does_not_report_clean() {
    let mut rig = Rig::new(1);
    let request = request_up_to_startup(&mut rig, 0);
    assert_eq!(rig.lane.request_startup(rig.around(false)), StartupAdmission::Admitted);
    assert_eq!(rig.lane.dequeue(false), NextRequest::Start);
    rig.faulted |= rig.lane.worker_ended(Some(false));
    assert!(rig.faulted);
    rig.permits.release();
    let fault = await_completion(rig.around(false), CompletionLook::Disconnected)
        .expect_err("the worker is gone");
    let (request, _) =
        request.advance(WindowEvent::Startup { result: Err(fault), canceled: false });
    rig.state.release_slot(0);
    rig.state.remove_slot(0);
    let evidence = rig.shutdown_sessions();
    assert!(request.fault.is_some());
    assert_eq!(evidence.startup.workers_joined, 1);
    assert_eq!(evidence.startup.panics, 1);
    assert_eq!(evidence.startup.unverified_native_owners, 1);
    assert_eq!(evidence.startup.in_flight_remaining, 1);
    assert!(!evidence.all_resources_released());
}

#[test]
fn shutdown_retires_other_child_while_native_startup_is_still_blocked() {
    shutdown_retires_independent_owner(false);
}

#[test]
fn shutdown_retires_installed_idle_session_while_native_startup_is_still_blocked() {
    shutdown_retires_independent_owner(true);
}

fn shutdown_retires_independent_owner(installed: bool) {
    let mut rig = Rig::new(2);
    let reading = request_up_to_startup(&mut rig, 0);
    assert_eq!(rig.lane.request_startup(rig.around(false)), StartupAdmission::Admitted);
    assert_eq!(rig.lane.dequeue(false), NextRequest::Start);
    rig.lane.record_attempt(true);

    assert_eq!(rig.permits.acquire(rig.around(false)), PermitDecision::Granted);
    let owner = Owner { child: KILLED, permit: true, ..Owner::default() };
    if installed {
        let slot = rig.state.search_slot(test_session_key(1)).slot.expect("room");
        rig.state.release_slot(slot);
        rig.installed.insert(
            slot,
            Owner {
                stdout: Some(PumpOutcome::Joined),
                stderr: Some(PumpOutcome::Joined),
                ..owner
            },
        );
    }
    rig.shutdown = true;
    let accepted = installed || rig.queue.enqueue_teardown(vec![owner]).accepted;
    rig.run_worker();
    let physical_while_startup_blocked = rig.permits.diagnostics().in_use;

    let fault = interrupt(&mut rig, reading, false);
    rig.state.release_slot(0);
    rig.state.remove_slot(0);
    let completion = rig.lane.publish();
    retire_unclaimed(&mut rig, completion, Owner { child: KILLED, permit: true, ..Owner::default() });
    rig.stop_lane();
    let evidence = rig.shutdown_sessions();
    assert!(accepted);
    assert_eq!(fault, DecodeFault::Canceled);
    assert_eq!(evidence.child_processes_observed, 2);
    assert_eq!(evidence.child_processes_terminated, 2);
    assert!(evidence.all_resources_released(), "{evidence:?}");
    assert_eq!(
        physical_while_startup_blocked, 1,
        "startup cannot stall independent retirement"
    );
}

#[test]
fn lossy_shutdowns_are_never_clean() {
    let mut evidence = AudioWindowDecoderShutdownEvidence::default();
    let clean = evidence;
    evidence.record_child(ChildOutcome::Lost);
    assert_eq!(evidence.child_process_termination_failures, 1);
    let mut merged = clean;
    merged.merge(evidence);
    assert_eq!(merged, evidence);
    assert!(!merged.all_resources_released());

    let mut pumps = clean;
    pumps.record_pump(PumpKind::Stderr, PumpOutcome::Joined);
    assert_eq!(pumps.stderr_pump_threads_joined, 1);
    let mut abandoned = clean;
    abandoned.abandon_owners(2);
    assert!(!abandoned.all_resources_released());
}

#[test]
fn merging_does_not_depend_on_the_order() {
    let mut child = AudioWindowDecoderShutdownEvidence::default();
    child.record_child(ChildOutcome::AlreadyExited);
    let mut pump = AudioWindowDecoderShutdownEvidence::default();
    pump.record_pump(PumpKind::Stdout, PumpOutcome::Panicked { owner_abandoned: true });
    let mut one = child;
    one.merge(pump);
    let mut other = pump;
    other.merge(child);
    assert_eq!(one, other);
}

#[test]
fn a_lane_that_settles_everything_is_released() {
    let mut lane = StartupLane::new(1);
    assert!(!lane.start(WorkerSpawn::Started).faulted);
    assert_eq!(lane.request_startup(QUIET), StartupAdmission::Admitted);
    assert_eq!(lane.request_startup(QUIET), StartupAdmission::Wait);
    assert_eq!(lane.request_startup(CANCELED), StartupAdmission::Refused(DecodeFault::Canceled));
    assert_eq!(lane.dequeue(false), NextRequest::Start);
    lane.record_attempt(true);
    let mut completion = lane.publish();
    assert_eq!(lane.claim(&mut completion), Ok(()));
    assert_eq!(lane.claim(&mut completion), Err(DecodeFault::StartupAlreadyClaimed));
    lane.settle(completion);
    assert_eq!(lane.dequeue(false), NextRequest::Park);
    assert_eq!(lane.dequeue(true), NextRequest::Stop);
    assert!(!lane.worker_ended(None));
    assert!(lane.producers_closed());
    assert_eq!(
        lane.request_startup(QUIET),
        StartupAdmission::Refused(DecodeFault::StartupUnavailable)
    );
    let evidence = lane.join(StartupJoin::Joined);
    assert!(evidence.all_resources_released());
    assert_eq!(evidence.requests_admitted, 1);
    assert_eq!(evidence.requests_claimed, 1);
    assert!(AudioDecoderStartupShutdownEvidence::default() != evidence);
}

#[test]
fn teardown_queues_refuse_what_they_cannot_hold() {
    let mut queue: DecoderTeardownQueue<u32> = DecoderTeardownQueue::new(2);
    let offered = queue.enqueue_teardown(vec![1, 2, 3]);
    assert!(!offered.accepted && offered.faulted && offered.notify);
    assert_eq!(offered.overflow, vec![3]);
    assert!(!offered.evidence.all_resources_released());
    assert_eq!(queue.close_and_take_pending(), vec![1, 2]);
    let late = queue.push(vec![4]);
    assert_eq!(late.overflow, vec![4]);
    assert!(!late.notify);
    let panicked =
        terminate_teardown_owner(OwnerEnd::Panicked { payload_abandoned: true }, 1);
    assert_eq!(panicked.shutdown_worker_owner_abandonments, 2);
    assert_eq!(panicked.external_session_slot_references, 1);
}

#[test]
fn rounds_end_with_the_last_reader_or_with_the_time() {
    let mut evidence = AudioWindowDecoderShutdownEvidence::default();
    let looks = [EntryLook::Busy { readers: 2 }];
    assert!(!close_round(&mut evidence, &looks, false));
    assert_eq!(evidence, AudioWindowDecoderShutdownEvidence::default());
    assert!(close_round(&mut evidence, &looks, true));
    assert_eq!(evidence.sessions_remaining, 1);
    assert_eq!(evidence.external_session_slot_references, 2);
    assert_eq!(evidence.shutdown_worker_owner_abandonments, 1);
}

#[test]
fn acts_out_of_turn_change_nothing() {
    let mut worker = TeardownWorker::new();
    let before = worker;
    assert_eq!(
        worker.advance(TeardownEvent::Producers { closed: true }),
        TeardownVerdict::NotDue
    );
    assert_eq!(worker, before);
}

#[test]
fn windows_come_out_in_order_and_whole() {
    let mut session = DecodeSession::open_at(2, 100);
    let mut assembly = session.begin_window(2).expect("a small window");
    assert_eq!(assembly.target, 16);
    assert_eq!(session.fill(&mut assembly, QUIET), Ok(true));
    assert_eq!(session.receive(StdoutMessage::Data((0..12).collect())), Ok(()));
    assert_eq!(session.fill(&mut assembly, QUIET), Ok(true));
    assert_eq!(session.receive(StdoutMessage::Data((12..24).collect())), Ok(()));
    assert_eq!(session.fill(&mut assembly, QUIET), Ok(false));
    let window = session.finish_window(assembly).expect("whole frames");
    assert_eq!(window.frames, 2);
    assert_eq!(window.samples, vec![0x0302_0100, 0x0706_0504, 0x0b0a_0908, 0x0f0e_0d0c]);
    assert_eq!(session.next_frame, 102);
    let mut rest = session.begin_window(1).expect("a small window");
    assert_eq!(session.fill(&mut rest, QUIET), Ok(false));
    assert_eq!(
        session.finish_window(rest).expect("whole frames").samples,
        vec![0x1312_1110, 0x1716_1514]
    );
    assert_eq!(session.next_frame, 103);
}

#[test]
fn broken_streams_are_reported() {
    let mut session = DecodeSession::open_at(2, 0);
    session.child = true;
    let mut assembly = session.begin_window(1).expect("a small window");
    assert_eq!(session.fill(&mut assembly, CANCELED), Err(DecodeFault::Canceled));
    assert_eq!(session.receive(StdoutMessage::Timeout), Ok(()));
    assert_eq!(session.receive(StdoutMessage::Data(vec![1, 2, 3])), Ok(()));
    session.consume_pending(&mut assembly);
    assert_eq!(session.receive(StdoutMessage::Eof), Ok(()));
    assert!(session.ended && session.awaiting_terminal_status);
    assert_eq!(session.finish_window(assembly), Err(DecodeFault::TruncatedFrame));
    let mut lost = DecodeSession::open_at(1, 0);
    lost.child = true;
    assert_eq!(lost.receive(StdoutMessage::Disconnected), Err(DecodeFault::PumpDisconnected));
    let mut broken = DecodeSession::open_at(1, 0);
    broken.child = true;
    assert!(matches!(
        broken.receive(StdoutMessage::Error("pipe".to_owned())),
        Err(DecodeFault::Reported(text)) if text.contains("pipe")
    ));
    assert!(DecodeSession::open_at(2, 0).begin_window(usize::MAX).is_err());
}

#[test]
fn process_ends_are_told_from_failures() {
    let mut session = DecodeSession::open_at(1, 0);
    session.child = false;
    assert_eq!(session.finalize_status(ExitLook::Running, false), TerminalStep::Gone);
    session.child = true;
    assert_eq!(
        session.finalize_status(ExitLook::Running, true),
        TerminalStep::Failed(DecodeFault::TerminalStatusMissing)
    );
    assert!(matches!(
        session.finalize_status(ExitLook::Unknown("denied".to_owned()), false),
        TerminalStep::Failed(DecodeFault::Reported(text)) if text.contains("denied")
    ));
    assert_eq!(
        terminal_result(false, b"bad \xffinput"),
        Err(DecodeFault::Reported(
            "ffmpeg 持久音频解码 Session 失败: bad \u{fffd}input".to_owned()
        ))
    );
    assert_eq!(
        await_terminal(QUIET, TerminalLook::Timeout { overdue: true }),
        Err(DecodeFault::TerminalOverdue)
    );
    assert_eq!(
        await_terminal(QUIET, TerminalLook::Disconnected),
        Err(DecodeFault::TerminalUnpublished)
    );
    assert_eq!(await_terminal(CANCELED, TerminalLook::Settled), Err(DecodeFault::Canceled));
    assert!(await_terminal(QUIET, TerminalLook::Failed("exit 1".to_owned())).is_err());
}

#[test]
fn surroundings_are_looked_at_in_order() {
    assert_eq!(check_surroundings(QUIET), Ok(()));
    assert_eq!(
        check_surroundings(Surroundings { canceled: true, shutdown: true, faulted: true }),
        Err(DecodeFault::Canceled)
    );
    assert_eq!(
        check_surroundings(Surroundings { canceled: false, shutdown: false, faulted: true }),
        Err(DecodeFault::TeardownUnavailable)
    );
    assert_eq!(await_lock(false, true, false), Ok(true));
    assert_eq!(await_lock(false, false, false), Ok(false));
    assert_eq!(await_lock(true, true, false), Err(DecodeFault::Canceled));
    assert_eq!(settle_search(Some(3), false), Err(DecodeFault::TeardownOverflow));
    assert_eq!(settle_search(None, true), Ok(None));
    assert_eq!(clamp_capacity(0, 4), 1);
    assert_eq!(clamp_capacity(9, 4), 4);
    let mut pool = DecoderSessionPermitPool::new(1, LIMIT);
    assert_eq!(pool.acquire(CANCELED), PermitDecision::Refused(DecodeFault::Canceled));
}

#[test]
fn faults_have_reasons() {
    for fault in [
        DecodeFault::Canceled,
        DecodeFault::TeardownUnavailable,
        DecodeFault::TeardownOverflow,
        DecodeFault::SessionMissing,
        DecodeFault::StartupUnavailable,
        DecodeFault::StartupAlreadyClaimed,
        DecodeFault::TerminalUnpublished,
        DecodeFault::TerminalOverdue,
        DecodeFault::TerminalStatusMissing,
        DecodeFault::PumpDisconnected,
        DecodeFault::TruncatedFrame,
        DecodeFault::WindowOverflow,
        DecodeFault::StdoutMissing,
        DecodeFault::StderrMissing,
    ] {
        assert!(!fault.reason().is_empty());
    }
    assert_eq!(DecodeFault::Reported("as it is".to_owned()).reason(), "as it is");
}

#[test]
fn commands_name_the_stream_and_the_exact_frames() {
    let arguments = spawn_arguments(&test_session_key(3), 528_000);
    assert!(arguments.contains(&DecoderArgument::Timestamp { frame: 48_000 }));
    assert!(arguments.contains(&DecoderArgument::Source));
    assert!(arguments.contains(&DecoderArgument::Text("0:3".to_owned())));
    assert!(arguments.contains(&DecoderArgument::Text("48000".to_owned())));
    let low = session_key(test_source(0), 1, stereo());
    assert_eq!(low.sample_rate, 8_000);
    assert!(low.same(&session_key(test_source(0), 2, stereo())));
    assert!(!low.same(&session_key(test_source(1), 2, stereo())));
}

#[test]
fn failed_spawns_keep_what_they_own() {
    let refused = advance_spawn(
        SpawnPhase::StartingStderrPump,
        &SpawnEvent::PumpRefused("no thread".to_owned()),
    );
    match refused {
        SpawnStep::Failed { fault, owner: Some(owner), permit_released } => {
            assert!(!permit_released);
            assert!(fault.reason().contains("no thread"));
            assert_eq!(
                owner,
                PartialInventory { stdout: false, stdout_pump: true, ..owner }
            );
            assert!(owner.child && owner.permit);
        }
        other => panic!("{other:?}"),
    }
    assert_eq!(
        advance_spawn(SpawnPhase::StartingStderrPump, &SpawnEvent::PumpStarted),
        SpawnStep::Complete
    );
    assert_eq!(
        advance_spawn(SpawnPhase::Commanding, &SpawnEvent::PumpStarted),
        SpawnStep::NotDue
    );
}

#[test]
fn sequential_windows_reuse_their_session() {
    let request = WindowRequest::begin(-5, QUIET).expect("a quiet decoder");
    assert_eq!(request.start_frame, 0);
    let (request, _) = request.advance(WindowEvent::Slot(Ok(())));
    let (request, _) = request.advance(WindowEvent::Locked(Ok(())));
    let (request, _) =
        request.advance(WindowEvent::Inspected { shutdown: false, next_frame: Some(0) });
    assert_eq!(request.kind, WindowKind::Sequential);
    let (request, action) =
        request.advance(WindowEvent::Looked { canceled: false, shutdown: false });
    assert_eq!(action, WindowAction::Decode);
    let (request, action) = request.advance(WindowEvent::Decoded {
        result: Ok(()),
        interrupted: false,
        shutting_down: false,
        ended: false,
        awaiting_terminal: false,
    });
    assert_eq!(action, WindowAction::Settle { retire_session: false, remove_slot: false });
    let (request, action) =
        request.advance(WindowEvent::Looked { canceled: false, shutdown: false });
    assert_eq!(request.fault, None);
    match action {
        WindowAction::Leave(departure) => {
            let record = departure.record.expect("a finished window is counted");
            assert!(record.timed && !record.opened && !record.canceled);
        }
        other => panic!("{other:?}"),
    }
    let (_, action) = request.advance(WindowEvent::Locked(Ok(())));
    assert_eq!(action, WindowAction::NotDue);
}

#[test]
fn windows_are_counted_by_kind() {
    let mut state = DecoderState::new(1, LIMIT);
    state.record_window(WindowKind::Cold, true, 70, false);
    state.record_window(WindowKind::Sequential, false, 30, false);
    state.record_window(WindowKind::RandomSeek, true, u128::MAX, true);
    let permits = PermitDiagnostics { in_use: 3, capacity: 2, peak_in_use: 3 };
    let diagnostics = state.diagnostics(permits);
    assert_eq!(diagnostics.session_opens, 2);
    assert_eq!(diagnostics.sequential_reuses, 1);
    assert_eq!(diagnostics.random_seek_restarts, 1);
    assert_eq!(diagnostics.cancellations, 1);
    assert_eq!(diagnostics.cold_window_max_duration_us, 70);
    assert_eq!(diagnostics.random_seek_window_max_duration_us, u64::MAX);
    assert_eq!(diagnostics.sessions_above_capacity, 1);
}

#[test]
fn output_pumps_end_with_the_output() {
    assert_eq!(
        pump_stdout(PumpRead::Bytes(vec![1, 2])),
        (StdoutMessage::Data(vec![1, 2]), false)
    );
    assert_eq!(pump_stdout(PumpRead::Bytes(Vec::new())), (StdoutMessage::Eof, true));
    assert_eq!(
        pump_stdout(PumpRead::Failed("broken pipe".to_owned())),
        (StdoutMessage::Error("读取 ffmpeg 持久音频输出失败: broken pipe".to_owned()), true)
    );
}

#[test]
fn sessions_are_found_under_every_spelling_of_their_path() {
    let mut state = DecoderState::new(2, LIMIT);
    let spelled = |text: &str| SessionKey {
        source: AudioSourceIdentity { path: media_path(text), ..test_source(0) },
        ..test_session_key(0)
    };
    let first = state.search_slot(spelled("a/b.wav"));
    let again = state.search_slot(spelled("a//b.wav"));
    assert_eq!(first.slot, again.slot);
    assert_eq!(state.session_count(), 1);
    let other = state.search_slot(spelled("a/../b.wav"));
    assert!(other.slot != first.slot);
    assert_eq!(state.session_count(), 2);
}

#[test]
fn windows_bring_the_table_back_to_its_capacity_unless_shutdown_is_requested() {
    let mut state = DecoderState::new(2, LIMIT);
    for index in 0..2 {
        assert_eq!(state.search_slot(test_session_key(index)).slot, Some(u64::from(index)));
    }
    assert!(state.reconfigure_session_capacity(1).is_empty());
    state.release_slot(0);
    assert!(state.converge_capacity(true).is_empty());
    assert_eq!(state.session_count(), 2);
    let gone = state.converge_capacity(false);
    assert_eq!(gone.len(), 1);
    assert_eq!(gone[0].slot, 0);
    assert_eq!(state.session_count(), 1);
    assert!(state.converge_capacity(false).is_empty());
}

#[test]
fn decoders_that_lost_a_worker_to_a_panic_refuse_readers() {
    let run = WorkerRun::Panicked {
        payload_abandoned: true,
        owners: 1,
        sessions: 1,
        retired: AudioWindowDecoderShutdownEvidence::default(),
    };
    let verdict = publish_worker(run);
    assert!(verdict.faulted);
    assert_eq!(verdict.terminal, WorkerTerminal::Panicked);
    assert_eq!(verdict.evidence.shutdown_worker_panics, 1);
    assert_eq!(verdict.evidence.shutdown_workers_started, 1);
    assert_eq!(verdict.evidence.sessions_before, 1);
    let around = Surroundings { faulted: verdict.faulted, ..QUIET };
    assert_eq!(check_surroundings(around), Err(DecodeFault::TeardownUnavailable));
    let canceled = Surroundings { canceled: true, ..around };
    assert_eq!(check_surroundings(canceled), Err(DecodeFault::Canceled));

    let completed = WorkerRun::Completed(AudioWindowDecoderShutdownEvidence::default());
    let verdict = publish_worker(completed);
    assert!(!verdict.faulted);
    assert_eq!(verdict.terminal, WorkerTerminal::Completed);

    let mut rig = Rig::new(1);
    rig.faulted |= rig.lane.worker_ended(Some(true));
    assert_eq!(check_surroundings(rig.around(false)), Err(DecodeFault::TeardownUnavailable));
}
