use vstd::prelude::*;
use vstd::pervasive::unreached;

verus! {

/// Size of the dedicated stack handed to the child's initial execution
/// context when the process is duplicated: one MiB.
pub const CHILD_STACK_SIZE: usize = 1024 * 1024;

/// The sentinel code the child's entry function returns when any bootstrap
/// step fails, and the code it returns on a clean finish.
pub const CHILD_FAILURE_CODE: isize = -1;

pub const CHILD_SUCCESS_CODE: isize = 0;

/// What the parent's wait on the child observed, as plain values: a normal
/// exit with its code, a termination by signal with the signal's number, a
/// wait that itself failed with a message, or any other wait result.
pub enum WaitEvent {
    Exited { code: i32 },
    Signaled { signal: i32 },
    WaitFailed { detail: String },
    OtherOutcome,
}

/// The lifecycle of the isolated child process: created once, awaited
/// exactly once, with two regular terminal states.
pub enum ChildStatus {
    NotStarted,
    Running { pid: i32 },
    ExitedNormally { pid: i32, code: i32 },
    ExitedBySignal { pid: i32, signal: i32 },
    /// Process duplication itself failed; there is no child.
    LaunchFailed,
    /// The wait returned something other than an exit or a signal; logged
    /// as unexpected, not fatal to the parent.
    Unexpected { pid: i32 },
}

/// Record the outcome of the duplication call: the child's pid, or the
/// failure to create it.
pub fn record_launch(pid: Option<i32>) -> (s: ChildStatus)
    ensures
        match pid {
            Some(p) => s == (ChildStatus::Running { pid: p }),
            None => s == ChildStatus::LaunchFailed,
        },
{
    match pid {
        Some(p) => ChildStatus::Running { pid: p },
        None => ChildStatus::LaunchFailed,
    }
}

/// Interpret what the wait observed for a running child: an exit with code
/// `N` is reported as `ExitedNormally` with that same `N`, a termination by
/// a signal as `ExitedBySignal` with that same signal, and anything else as
/// unexpected.
pub fn record_termination(s: ChildStatus, event: WaitEvent) -> (t: ChildStatus)
    requires
        s is Running,
    ensures
        match event {
            WaitEvent::Exited { code } => t == (ChildStatus::ExitedNormally {
                pid: s->Running_pid,
                code,
            }),
            WaitEvent::Signaled { signal } => t == (ChildStatus::ExitedBySignal {
                pid: s->Running_pid,
                signal,
            }),
            _ => t == (ChildStatus::Unexpected { pid: s->Running_pid }),
        },
{
    let pid = match s {
        ChildStatus::Running { pid } => pid,
        _ => unreached(),
    };
    match event {
        WaitEvent::Exited { code } => ChildStatus::ExitedNormally { pid, code },
        WaitEvent::Signaled { signal } => ChildStatus::ExitedBySignal { pid, signal },
        _ => ChildStatus::Unexpected { pid },
    }
}

/// The exit code of the child's entry function: a distinguished failure
/// code when any bootstrap step failed, success otherwise.
pub fn child_exit_code(bootstrap_ok: bool) -> (c: isize)
    ensures
        bootstrap_ok ==> c == CHILD_SUCCESS_CODE,
        !bootstrap_ok ==> c == CHILD_FAILURE_CODE,
{
    if bootstrap_ok {
        CHILD_SUCCESS_CODE
    } else {
        CHILD_FAILURE_CODE
    }
}

} // verus!
