//! Native process groups: a process joins its group before any of its code runs.

use crate::text::{contains_text, occurs_at};
use vstd::prelude::*;
use vstd::string::*;

verus! {

/// Why a process could not join its group.
#[derive(Debug, Clone, Copy, PartialEq, Eq, Structural)]
pub enum NativeJobFault {
    /// The system refused, with an error of its own.
    System {
        code: i32,
    },
    DeadlineExceeded,
    /// The process that should not run yet has several threads.
    MultipleThreads,
    /// It has no thread at all.
    PrimaryThreadMissing,
    /// Its thread was not stopped exactly once.
    SuspendCount,
}

/// The text of a fault. `system` is how the system puts its own error.
pub open spec fn job_fault_text(fault: NativeJobFault, system: Seq<char>) -> Seq<char> {
    match fault {
        NativeJobFault::System { code } => system,
        NativeJobFault::DeadlineExceeded => "original native spawn deadline exceeded"@,
        NativeJobFault::MultipleThreads => {
            "suspended native child unexpectedly has multiple threads"@
        },
        NativeJobFault::PrimaryThreadMissing => "suspended native primary thread is missing"@,
        NativeJobFault::SuspendCount => "native primary thread suspend count was not exactly one"@,
    }
}

impl NativeJobFault {
    /// The text of this fault.
    pub fn text<'a>(self, system: &'a str) -> (r: &'a str)
        ensures
            r@ == job_fault_text(self, system@),
    {
        match self {
            NativeJobFault::System { .. } => system,
            NativeJobFault::DeadlineExceeded => "original native spawn deadline exceeded",
            NativeJobFault::MultipleThreads => {
                "suspended native child unexpectedly has multiple threads"
            },
            NativeJobFault::PrimaryThreadMissing => "suspended native primary thread is missing",
            NativeJobFault::SuspendCount => {
                "native primary thread suspend count was not exactly one"
            },
        }
    }
}

/// Fails where the time to create a process is over. Without a deadline it never is.
pub fn check_spawn_deadline(now: u64, deadline: Option<u64>) -> (r: Result<(), NativeJobFault>)
    ensures
        match r {
            Ok(()) => deadline matches Some(end) ==> now < end,
            Err(fault) => fault is DeadlineExceeded && (deadline matches Some(end) && now >= end),
        },
{
    match deadline {
        Some(end) => {
            if now >= end {
                return Err(NativeJobFault::DeadlineExceeded);
            }
        },
        None => {},
    }
    Ok(())
}

/// A thread of the system.
#[derive(Debug, Clone, Copy, PartialEq, Eq, Structural)]
pub struct ThreadEntry {
    /// The process that it belongs to.
    pub owner: u32,
    pub thread: u32,
}

/// The threads of a process, in the order of the system.
pub open spec fn threads_of(entries: Seq<ThreadEntry>, process: u32) -> Seq<u32>
    decreases entries.len(),
{
    if entries.len() == 0 {
        seq![]
    } else if entries.last().owner == process {
        threads_of(entries.drop_last(), process).push(entries.last().thread)
    } else {
        threads_of(entries.drop_last(), process)
    }
}

/// The only thread of a process that does not run yet.
pub fn primary_thread(entries: &[ThreadEntry], process: u32) -> (r: Result<u32, NativeJobFault>)
    ensures
        match r {
            Ok(thread) => threads_of(entries@, process) == seq![thread],
            Err(fault) => if threads_of(entries@, process).len() == 0 {
                fault is PrimaryThreadMissing
            } else {
                fault is MultipleThreads && threads_of(entries@, process).len() > 1
            },
        },
{
    let len: usize = entries.len();
    let mut primary: Option<u32> = None;
    let mut i: usize = 0;
    assert(entries@.take(0) =~= Seq::<ThreadEntry>::empty());
    while i < len
        invariant
            i <= len == entries@.len(),
            match primary {
                None => threads_of(entries@.take(i as int), process).len() == 0,
                Some(thread) => threads_of(entries@.take(i as int), process) =~= seq![thread],
            },
        decreases len - i,
    {
        assert(entries@.take(i + 1).drop_last() =~= entries@.take(i as int));
        if entries[i].owner == process {
            if primary.is_some() {
                proof {
                    lemma_threads_grow(entries@, i + 1, process);
                }
                return Err(NativeJobFault::MultipleThreads);
            }
            primary = Some(entries[i].thread);
        }
        i += 1;
    }
    assert(entries@.take(len as int) =~= entries@);
    match primary {
        Some(thread) => Ok(thread),
        None => Err(NativeJobFault::PrimaryThreadMissing),
    }
}

proof fn lemma_threads_grow(entries: Seq<ThreadEntry>, n: int, process: u32)
    requires
        0 <= n <= entries.len(),
    ensures
        threads_of(entries.take(n), process).len() <= threads_of(entries, process).len(),
    decreases entries.len() - n,
{
    if n == entries.len() {
        assert(entries.take(n) =~= entries);
    } else {
        lemma_threads_grow(entries, n + 1, process);
        assert(entries.take(n + 1).drop_last() =~= entries.take(n));
    }
}

/// Checks that a thread was stopped exactly once before it was let go.
pub fn check_resumed(previous_suspend_count: u32) -> (r: Result<(), NativeJobFault>)
    ensures
        match r {
            Ok(()) => previous_suspend_count == 1,
            Err(fault) => fault is SuspendCount && previous_suspend_count != 1,
        },
{
    if previous_suspend_count != 1 {
        Err(NativeJobFault::SuspendCount)
    } else {
        Ok(())
    }
}

/// How far a process that was created, but does not run yet, has come.
#[derive(Debug, Clone, Copy, PartialEq, Eq, Structural)]
pub enum JoinPhase {
    /// It was created just now.
    Created,
    /// It is to join its group.
    Assigning,
    /// The threads of the system are listed.
    Listing,
    /// Its thread is opened.
    Opening,
    /// Its thread is let go.
    Resuming,
}

/// What the system answered.
#[derive(Debug)]
pub enum JoinEvent<'a> {
    /// The process is there.
    Ready,
    /// The process joined its group, or why it did not.
    Assigned(Result<(), i32>),
    /// The threads of the system.
    Listed(Result<&'a [ThreadEntry], i32>),
    Opened(Result<(), i32>),
    /// The thread was let go; so often it had been stopped.
    Resumed {
        previous_suspend_count: u32,
    },
}

/// What is done next with a process that was created.
#[derive(Debug, Clone, Copy, PartialEq, Eq, Structural)]
pub enum JoinStep {
    AssignProcess,
    ListThreads,
    OpenThread {
        thread: u32,
    },
    ResumeThread,
    /// The process runs, in its group.
    Complete,
    Failed(NativeJobFault),
    /// The answer was not to this question.
    NotDue,
}

/// Whether the time to create a process is over.
pub open spec fn overdue(now: u64, deadline: Option<u64>) -> bool {
    deadline matches Some(end) && now >= end
}

/// A step, unless the time is over.
pub open spec fn in_time(step: JoinStep, now: u64, deadline: Option<u64>) -> JoinStep {
    if overdue(now, deadline) {
        JoinStep::Failed(NativeJobFault::DeadlineExceeded)
    } else {
        step
    }
}

/// What follows an answer of the system.
pub open spec fn join_step(
    phase: JoinPhase,
    event: JoinEvent,
    process: u32,
    now: u64,
    deadline: Option<u64>,
) -> JoinStep {
    match (phase, event) {
        (JoinPhase::Created, JoinEvent::Ready) => in_time(JoinStep::AssignProcess, now, deadline),
        (JoinPhase::Assigning, JoinEvent::Assigned(result)) => match result {
            Err(code) => JoinStep::Failed(NativeJobFault::System { code }),
            Ok(()) => in_time(JoinStep::ListThreads, now, deadline),
        },
        (JoinPhase::Listing, JoinEvent::Listed(result)) => match result {
            Err(code) => JoinStep::Failed(NativeJobFault::System { code }),
            Ok(entries) => {
                let own = threads_of(entries@, process);
                if own.len() == 0 {
                    JoinStep::Failed(NativeJobFault::PrimaryThreadMissing)
                } else if own.len() > 1 {
                    JoinStep::Failed(NativeJobFault::MultipleThreads)
                } else {
                    JoinStep::OpenThread { thread: own[0] }
                }
            },
        },
        (JoinPhase::Opening, JoinEvent::Opened(result)) => match result {
            Err(code) => JoinStep::Failed(NativeJobFault::System { code }),
            Ok(()) => in_time(JoinStep::ResumeThread, now, deadline),
        },
        (JoinPhase::Resuming, JoinEvent::Resumed { previous_suspend_count }) => if previous_suspend_count
            != 1 {
            JoinStep::Failed(NativeJobFault::SuspendCount)
        } else {
            in_time(JoinStep::Complete, now, deadline)
        },
        _ => JoinStep::NotDue,
    }
}

fn unless_overdue(step: JoinStep, now: u64, deadline: Option<u64>) -> (r: JoinStep)
    ensures
        r == in_time(step, now, deadline),
{
    match check_spawn_deadline(now, deadline) {
        Ok(()) => step,
        Err(fault) => JoinStep::Failed(fault),
    }
}

/// Takes a process that was created, but does not run yet, one step further: into its
/// group, and only then to its first instruction.
pub fn assign_and_resume(
    phase: JoinPhase,
    event: JoinEvent,
    process: u32,
    now: u64,
    deadline: Option<u64>,
) -> (step: JoinStep)
    ensures
        step == join_step(phase, event, process, now, deadline),
{
    match (phase, event) {
        (JoinPhase::Created, JoinEvent::Ready) => unless_overdue(
            JoinStep::AssignProcess,
            now,
            deadline,
        ),
        (JoinPhase::Assigning, JoinEvent::Assigned(result)) => match result {
            Err(code) => JoinStep::Failed(NativeJobFault::System { code }),
            Ok(()) => unless_overdue(JoinStep::ListThreads, now, deadline),
        },
        (JoinPhase::Listing, JoinEvent::Listed(result)) => match result {
            Err(code) => JoinStep::Failed(NativeJobFault::System { code }),
            Ok(entries) => match primary_thread(entries, process) {
                Ok(thread) => JoinStep::OpenThread { thread },
                Err(fault) => JoinStep::Failed(fault),
            },
        },
        (JoinPhase::Opening, JoinEvent::Opened(result)) => match result {
            Err(code) => JoinStep::Failed(NativeJobFault::System { code }),
            Ok(()) => unless_overdue(JoinStep::ResumeThread, now, deadline),
        },
        (JoinPhase::Resuming, JoinEvent::Resumed { previous_suspend_count }) => match check_resumed(
            previous_suspend_count,
        ) {
            Ok(()) => unless_overdue(JoinStep::Complete, now, deadline),
            Err(fault) => JoinStep::Failed(fault),
        },
        _ => JoinStep::NotDue,
    }
}

/// The phase that a step leads to, where it goes on.
pub open spec fn phase_after(step: JoinStep) -> Option<JoinPhase> {
    match step {
        JoinStep::AssignProcess => Some(JoinPhase::Assigning),
        JoinStep::ListThreads => Some(JoinPhase::Listing),
        JoinStep::OpenThread { .. } => Some(JoinPhase::Opening),
        JoinStep::ResumeThread => Some(JoinPhase::Resuming),
        _ => None,
    }
}

/// The phase after some answers of the system, each at its time, where no step failed.
pub open spec fn reached<'a>(
    answers: Seq<(JoinEvent<'a>, u64)>,
    process: u32,
    deadline: Option<u64>,
) -> Option<JoinPhase>
    decreases answers.len(),
{
    if answers.len() == 0 {
        Some(JoinPhase::Created)
    } else {
        match reached(answers.drop_last(), process, deadline) {
            None => None,
            Some(phase) => phase_after(
                join_step(phase, answers.last().0, process, answers.last().1, deadline),
            ),
        }
    }
}

/// A process comes to be let go only after it joined its group, which was the first thing
/// done with it, and before its deadline.
pub proof fn nothing_runs_outside_its_group<'a>(
    answers: Seq<(JoinEvent<'a>, u64)>,
    process: u32,
    deadline: Option<u64>,
)
    requires
        reached(answers, process, deadline) == Some(JoinPhase::Resuming),
    ensures
        answers.len() == 4,
        answers[1].0 matches JoinEvent::Assigned(result) && result is Ok,
        !overdue(answers[3].1, deadline),
{
    let opened = answers.drop_last();
    let listed = opened.drop_last();
    let assigned = listed.drop_last();
    let ready = assigned.drop_last();
    reveal_with_fuel(reached, 5);
    assert(listed[1] == answers[1]);
    lemma_created_is_first(ready, process, deadline);
}

proof fn lemma_created_is_first<'a>(
    answers: Seq<(JoinEvent<'a>, u64)>,
    process: u32,
    deadline: Option<u64>,
)
    ensures
        reached(answers, process, deadline) == Some(JoinPhase::Created) ==> answers.len() == 0,
{
}

/// The threads of a process are those that the system lists with it as owner, in order.
pub proof fn threads_go_by_their_owner(entries: Seq<ThreadEntry>, process: u32)
    ensures
        threads_of(entries, process) == entries.filter(
            |entry: ThreadEntry| entry.owner == process,
        ).map_values(|entry: ThreadEntry| entry.thread),
    decreases entries.len(),
{
    let own = entries.filter(|entry: ThreadEntry| entry.owner == process);
    reveal(Seq::filter);
    if entries.len() > 0 {
        threads_go_by_their_owner(entries.drop_last(), process);
        let before = entries.drop_last().filter(|entry: ThreadEntry| entry.owner == process);
        if entries.last().owner == process {
            assert(own == before.push(entries.last()));
        }
    }
    assert(threads_of(entries, process) =~= own.map_values(|entry: ThreadEntry| entry.thread));
}

/// Joining a group takes its steps in order, and each only in time. Whatever the system
/// refuses ends it with the system's code.
pub proof fn joining_goes_step_by_step<'a>(
    phase: JoinPhase,
    event: JoinEvent<'a>,
    process: u32,
    now: u64,
    deadline: Option<u64>,
)
    ensures
        ({
            let step = join_step(phase, event, process, now, deadline);
            &&& step is AssignProcess ==> phase is Created && event is Ready
            &&& step is ListThreads ==> phase is Assigning && event is Assigned
            &&& step is OpenThread ==> phase is Listing && event is Listed
            &&& step is ResumeThread ==> phase is Opening && event is Opened
            &&& step is Complete ==> phase is Resuming && event == (JoinEvent::Resumed {
                previous_suspend_count: 1,
            })
            &&& deadline is Some && now >= deadline->0 ==> !(step is AssignProcess) && !(
            step is ListThreads) && !(step is ResumeThread) && !(step is Complete)
            &&& deadline is None || now < deadline->0 ==> step != JoinStep::Failed(
                NativeJobFault::DeadlineExceeded,
            )
            &&& phase is Created && event is Ready && deadline is None ==> step is AssignProcess
            &&& phase is Resuming && event is Resumed && event->previous_suspend_count != 1
                ==> step == JoinStep::Failed(NativeJobFault::SuspendCount)
            &&& phase is Assigning ==> (event matches JoinEvent::Assigned(Err(code)) ==> step
                == JoinStep::Failed(NativeJobFault::System { code }))
            &&& phase is Opening ==> (event matches JoinEvent::Opened(Err(code)) ==> step
                == JoinStep::Failed(NativeJobFault::System { code }))
            &&& phase is Listing ==> (event matches JoinEvent::Listed(Err(code)) ==> step
                == JoinStep::Failed(NativeJobFault::System { code }))
        }),
{
}

/// The text of a fault names what failed, and so tells it from the others.
pub proof fn job_faults_name_what_failed(fault: NativeJobFault, system: Seq<char>)
    ensures
        fault is DeadlineExceeded ==> contains_text(job_fault_text(fault, system), "deadline exceeded"@),
        fault is MultipleThreads ==> contains_text(job_fault_text(fault, system), "multiple threads"@),
        fault is PrimaryThreadMissing ==> contains_text(job_fault_text(fault, system), "thread is missing"@),
        fault is SuspendCount ==> contains_text(job_fault_text(fault, system), "suspend count"@),
{
    reveal_strlit("original native spawn deadline exceeded");
    reveal_strlit("deadline exceeded");
    reveal_strlit("suspended native child unexpectedly has multiple threads");
    reveal_strlit("multiple threads");
    reveal_strlit("suspended native primary thread is missing");
    reveal_strlit("thread is missing");
    reveal_strlit("native primary thread suspend count was not exactly one");
    reveal_strlit("suspend count");
    if fault is DeadlineExceeded {
        let text = job_fault_text(fault, system);
        assert(text.subrange(22, 39) =~= "deadline exceeded"@);
        assert(occurs_at(text, "deadline exceeded"@, 22));
    }
    if fault is MultipleThreads {
        let text = job_fault_text(fault, system);
        assert(text.subrange(40, 56) =~= "multiple threads"@);
        assert(occurs_at(text, "multiple threads"@, 40));
    }
    if fault is PrimaryThreadMissing {
        let text = job_fault_text(fault, system);
        assert(text.subrange(25, 42) =~= "thread is missing"@);
        assert(occurs_at(text, "thread is missing"@, 25));
    }
    if fault is SuspendCount {
        let text = job_fault_text(fault, system);
        assert(text.subrange(22, 35) =~= "suspend count"@);
        assert(occurs_at(text, "suspend count"@, 22));
    }
}

/// A process that does not run yet has one thread, which is opened. One without threads, or
/// with more than one, is refused.
pub proof fn only_the_one_thread_is_opened<'a>(
    entries: &'a [ThreadEntry],
    process: u32,
    now: u64,
    deadline: Option<u64>,
    thread: u32,
)
    ensures
        ({
            let own = threads_of(entries@, process);
            let step = join_step(
                JoinPhase::Listing,
                JoinEvent::Listed(Ok(entries)),
                process,
                now,
                deadline,
            );
            &&& own == seq![thread] ==> step == (JoinStep::OpenThread { thread })
            &&& step is OpenThread ==> own == seq![step->thread]
            &&& own.len() == 0 ==> step == JoinStep::Failed(NativeJobFault::PrimaryThreadMissing)
            &&& own.len() >= 2 ==> step == JoinStep::Failed(NativeJobFault::MultipleThreads)
        }),
{
    let own = threads_of(entries@, process);
    if own.len() == 1 {
        assert(own =~= seq![own[0]]);
    }
}

} // verus!
