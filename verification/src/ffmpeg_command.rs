//! Authority to run a command, and how long it stays with the native process.

use vstd::prelude::*;
use vstd::string::*;

verus! {

/// Whether a process may be created, and with which authority. A command of an installed
/// toolchain has to be admitted; any other must not be one that the toolchain forbids.
pub fn admit_spawn<L, E>(admitted: Option<Result<L, E>>, unqualified: Result<(), E>) -> (r: Result<
    Option<L>,
    E,
>)
    ensures
        r == (match admitted {
            Some(Ok(lease)) => Ok::<Option<L>, E>(Some(lease)),
            Some(Err(error)) => Err(error),
            None => match unqualified {
                Ok(()) => Ok(None),
                Err(error) => Err(error),
            },
        }),
        r == Ok::<Option<L>, E>(None) <==> admitted is None && unqualified is Ok,
        admitted is Some ==> (r is Ok <==> admitted->0 is Ok),
        r matches Ok(Some(lease)) ==> admitted == Some(Ok::<L, E>(lease)),
{
    match admitted {
        Some(Ok(lease)) => Ok(Some(lease)),
        Some(Err(error)) => Err(error),
        None => match unqualified {
            Ok(()) => Ok(None),
            Err(error) => Err(error),
        },
    }
}

/// Why a process that could not join its group was ended again.
pub fn spawn_failure(primary: &str, cleanup: &str) -> (text: String)
    ensures
        text@ == "native process group admission failed: "@ + primary@ + "; cleanup: "@ + cleanup@,
{
    let mut text = "native process group admission failed: ".to_owned();
    text.append(primary);
    text.append("; cleanup: ");
    text.append(cleanup);
    text
}

/// What becomes of the authority that a process was started with.
#[derive(Debug, Clone, Copy, PartialEq, Eq, Structural)]
pub enum LeaseFate {
    /// The process may still run: it keeps the authority.
    Kept,
    /// The process has ended.
    Released,
    /// Nobody knows whether the process has ended: the authority is never given back.
    Abandoned,
}

/// The process group of a process, where the system has such.
#[derive(Debug, Clone, Copy, PartialEq, Eq, Structural)]
pub enum JobLook {
    /// There is none, or the process is not in it.
    NotAssigned,
    /// So many processes of the group run.
    Active(u32),
    /// The system does not tell.
    Unknown,
}

/// What asking after a process without waiting brings.
#[derive(Debug, Clone, Copy, PartialEq, Eq, Structural)]
pub enum TryWait {
    /// The process, or one that it started, still runs.
    Running,
    Exited,
    Failed,
}

/// What asking after a process without waiting comes to.
pub open spec fn spec_observe_exit(exited: Result<bool, ()>, job: JobLook) -> TryWait {
    match exited {
        Err(()) => TryWait::Failed,
        Ok(false) => TryWait::Running,
        Ok(true) => match job {
            JobLook::NotAssigned => TryWait::Exited,
            JobLook::Active(count) => if count == 0 {
                TryWait::Exited
            } else {
                TryWait::Running
            },
            JobLook::Unknown => TryWait::Failed,
        },
    }
}

/// What becomes of the authority once a process was asked after.
pub open spec fn fate_after(look: TryWait) -> LeaseFate {
    if look is Exited {
        LeaseFate::Released
    } else {
        LeaseFate::Kept
    }
}

/// What asking after a process without waiting comes to. The end of the process counts
/// only with that of its group, and only then its authority is released.
pub fn observe_exit(exited: Result<bool, ()>, job: JobLook) -> (r: (TryWait, LeaseFate))
    ensures
        r.0 == spec_observe_exit(exited, job),
        r.1 == fate_after(r.0),
{
    match exited {
        Err(()) => (TryWait::Failed, LeaseFate::Kept),
        Ok(false) => (TryWait::Running, LeaseFate::Kept),
        Ok(true) => match job {
            JobLook::NotAssigned => (TryWait::Exited, LeaseFate::Released),
            JobLook::Active(count) => {
                if count == 0 {
                    (TryWait::Exited, LeaseFate::Released)
                } else {
                    (TryWait::Running, LeaseFate::Kept)
                }
            },
            JobLook::Unknown => (TryWait::Failed, LeaseFate::Kept),
        },
    }
}

/// What becomes of the authority once all output was waited for. A process whose output
/// was taken before has none any more.
pub fn settle_output(present: bool, succeeded: bool) -> (r: Result<LeaseFate, &'static str>)
    ensures
        match r {
            Ok(fate) => present && fate == (if succeeded {
                LeaseFate::Released
            } else {
                LeaseFate::Abandoned
            }),
            Err(reason) => !present && reason@ == "native media child already consumed"@,
        },
        r == Ok::<LeaseFate, &'static str>(LeaseFate::Released) <==> present && succeeded,
        present && !succeeded ==> r == Ok::<LeaseFate, &'static str>(LeaseFate::Abandoned),
{
    if !present {
        Err("native media child already consumed")
    } else if succeeded {
        Ok(LeaseFate::Released)
    } else {
        Ok(LeaseFate::Abandoned)
    }
}

/// What is done with a process that its owner lets go.
#[derive(Debug, Clone, Copy, PartialEq, Eq, Structural)]
pub struct OwnerLoss {
    pub fate: LeaseFate,
    /// The group is ended.
    pub terminate_group: bool,
}

/// What is done with a process that its owner lets go: its authority is released only
/// where it has ended, with its group where there is one. Otherwise the group is ended,
/// and the authority abandoned.
pub fn drop_child(exited: bool, group: Option<JobLook>) -> (r: OwnerLoss)
    ensures
        ({
            let settled = exited && (match group {
                None => true,
                Some(look) => look == JobLook::Active(0),
            });
            &&& r.fate == if settled {
                LeaseFate::Released
            } else {
                LeaseFate::Abandoned
            }
            &&& r.terminate_group == (group is Some && !settled)
        }),
        r.fate is Released <==> exited && (group is None || group == Some(JobLook::Active(0))),
        r.fate is Abandoned <==> !(r.fate is Released),
        r.terminate_group ==> r.fate is Abandoned,
        group is Some && r.fate is Abandoned ==> r.terminate_group,
{
    let (has_group, group_settled) = match group {
        None => (false, true),
        Some(look) => match look {
            JobLook::Active(count) => (true, count == 0),
            JobLook::NotAssigned | JobLook::Unknown => (true, false),
        },
    };
    let settled = exited && group_settled;
    OwnerLoss {
        fate: if settled {
            LeaseFate::Released
        } else {
            LeaseFate::Abandoned
        },
        terminate_group: has_group && !settled,
    }
}

/// Whether a process is ended through its group or by itself.
pub fn kills_group(job: JobLook) -> (r: bool)
    ensures
        r == !(job is NotAssigned),
{
    match job {
        JobLook::NotAssigned => false,
        JobLook::Active(_) | JobLook::Unknown => true,
    }
}

/// Authority is released only once the process has ended, and no process of its group
/// is known or feared to run.
pub proof fn release_needs_an_end(exited: Result<bool, ()>, job: JobLook)
    requires
        fate_after(spec_observe_exit(exited, job)) is Released,
    ensures
        exited == Ok::<bool, ()>(true),
        !(job is Unknown),
        job matches JobLook::Active(count) ==> count == 0,
{
}

/// A process has ended where the system says so, and its group, where it has one, is empty.
/// A process that the system does not tell of, or whose group it does not tell of, is no
/// answer. Authority is kept until the end.
pub proof fn ends_are_told_with_the_group(exited: Result<bool, ()>, job: JobLook)
    ensures
        spec_observe_exit(exited, job) is Exited <==> exited == Ok::<bool, ()>(true) && (
        job is NotAssigned || job == JobLook::Active(0)),
        spec_observe_exit(exited, job) is Failed <==> exited is Err || (exited
            == Ok::<bool, ()>(true) && job is Unknown),
        exited == Ok::<bool, ()>(false) ==> spec_observe_exit(exited, job) is Running,
        fate_after(spec_observe_exit(exited, job)) is Released <==> spec_observe_exit(
            exited,
            job,
        ) is Exited,
        fate_after(spec_observe_exit(exited, job)) is Kept <==> !(spec_observe_exit(
            exited,
            job,
        ) is Exited),
{
}

} // verus!
