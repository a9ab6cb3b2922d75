use vstd::prelude::*;

use crate::model::{
    RawWait, Request, StopReason, TraceError, TraceeState, ECHILD, EINVAL, EPERM, ESRCH,
    SIGTRAP,
};

verus! {

/// The one stop reason that a raw wait result denotes.
pub open spec fn classify_spec(raw: RawWait) -> StopReason {
    match raw {
        RawWait::Exited(code) => StopReason::ExitedWithCode(code),
        RawWait::Signaled(sig, _) => StopReason::Signaled(sig),
        RawWait::Stopped(sig) => StopReason::Stopped(sig),
        RawWait::PtraceEvent(sig, _) => StopReason::Stopped(sig),
        RawWait::PtraceSyscall => StopReason::Stopped(SIGTRAP),
        RawWait::Continued => StopReason::Continued,
        RawWait::StillAlive => StopReason::Unknown,
    }
}

/// Maps a raw wait result to exactly one stop reason.
pub fn classify(raw: RawWait) -> (r: StopReason)
    ensures
        r == classify_spec(raw),
{
    match raw {
        RawWait::Exited(code) => StopReason::ExitedWithCode(code),
        RawWait::Signaled(sig, _) => StopReason::Signaled(sig),
        RawWait::Stopped(sig) => StopReason::Stopped(sig),
        RawWait::PtraceEvent(sig, _) => StopReason::Stopped(sig),
        RawWait::PtraceSyscall => StopReason::Stopped(SIGTRAP),
        RawWait::Continued => StopReason::Continued,
        RawWait::StillAlive => StopReason::Unknown,
    }
}

/// The state that a request leads to once the operating system accepted it.
pub open spec fn requested_state(state: TraceeState, req: Request) -> TraceeState {
    match req {
        Request::Interrupt => TraceeState::StopPending,
        Request::Step => TraceeState::StopPending,
        Request::Continue => TraceeState::Running,
        Request::Detach => TraceeState::Detached,
        _ => state,
    }
}

/// The error that an operating-system failure of a control request stands for.
pub open spec fn control_error_spec(errno: i32) -> TraceError {
    if errno == ESRCH {
        TraceError::TraceeGone
    } else if errno == EPERM {
        TraceError::PermissionDenied
    } else {
        TraceError::Os(errno)
    }
}

/// New state and result after a request was sent and answered by the operating system.
pub open spec fn request_effect(state: TraceeState, req: Request, outcome: Result<(), i32>) -> (TraceeState, Result<(), TraceError>) {
    match outcome {
        Ok(()) => (requested_state(state, req), Ok(())),
        Err(errno) => if errno == ESRCH {
            (TraceeState::Exited, Err(TraceError::TraceeGone))
        } else {
            (state, Err(control_error_spec(errno)))
        },
    }
}

/// Maps the error number of a failed control request to an error of this library.
pub fn control_error(errno: i32) -> (r: TraceError)
    ensures
        r == control_error_spec(errno),
{
    if errno == ESRCH {
        TraceError::TraceeGone
    } else if errno == EPERM {
        TraceError::PermissionDenied
    } else {
        TraceError::Os(errno)
    }
}

/// Applies the answer of the operating system to a request that was sent.
pub fn after_request(state: TraceeState, req: Request, outcome: Result<(), i32>) -> (r: (TraceeState, Result<(), TraceError>))
    ensures
        r == request_effect(state, req, outcome),
{
    match outcome {
        Ok(()) => {
            let next = match req {
                Request::Interrupt => TraceeState::StopPending,
                Request::Step => TraceeState::StopPending,
                Request::Continue => TraceeState::Running,
                Request::Detach => TraceeState::Detached,
                _ => state,
            };
            (next, Ok(()))
        },
        Err(errno) => {
            if errno == ESRCH {
                (TraceeState::Exited, Err(TraceError::TraceeGone))
            } else {
                (state, Err(control_error(errno)))
            }
        },
    }
}

/// The state confirmed by a stop reason.
pub open spec fn observed_state(state: TraceeState, reason: StopReason) -> TraceeState {
    match reason {
        StopReason::Stopped(_) => TraceeState::Stopped,
        StopReason::Signaled(_) => TraceeState::Exited,
        StopReason::ExitedWithCode(_) => TraceeState::Exited,
        StopReason::Continued => TraceeState::Running,
        StopReason::Unknown => state,
    }
}

/// New state and result after a wait was answered by the operating system; a
/// status that could not be decoded is an `Unknown` change and keeps the state.
pub open spec fn wait_effect(state: TraceeState, outcome: Result<RawWait, i32>) -> (TraceeState, Result<StopReason, TraceError>) {
    match outcome {
        Ok(raw) => (observed_state(state, classify_spec(raw)), Ok(classify_spec(raw))),
        Err(errno) => if errno == ESRCH || errno == ECHILD {
            (TraceeState::Exited, Err(TraceError::TraceeGone))
        } else if errno == EINVAL {
            (state, Ok(StopReason::Unknown))
        } else {
            (state, Err(TraceError::Os(errno)))
        },
    }
}

/// Applies the answer of the operating system to a wait.
pub fn after_wait(state: TraceeState, outcome: Result<RawWait, i32>) -> (r: (TraceeState, Result<StopReason, TraceError>))
    ensures
        r == wait_effect(state, outcome),
{
    match outcome {
        Ok(raw) => {
            let reason = classify(raw);
            let next = match reason {
                StopReason::Stopped(_) => TraceeState::Stopped,
                StopReason::Signaled(_) => TraceeState::Exited,
                StopReason::ExitedWithCode(_) => TraceeState::Exited,
                StopReason::Continued => TraceeState::Running,
                StopReason::Unknown => state,
            };
            (next, Ok(reason))
        },
        Err(errno) => {
            if errno == ESRCH || errno == ECHILD {
                (TraceeState::Exited, Err(TraceError::TraceeGone))
            } else if errno == EINVAL {
                (state, Ok(StopReason::Unknown))
            } else {
                (state, Err(TraceError::Os(errno)))
            }
        },
    }
}

/// A control request never confirms a stop: whatever the operating system answers,
/// the state after it is `Stopped` only if it was `Stopped` already, and `Running`
/// only if it was `Running` already or the request was a continue.
pub proof fn lemma_requests_never_confirm(state: TraceeState, req: Request, outcome: Result<(), i32>)
    ensures
        request_effect(state, req, outcome).0 == TraceeState::Stopped ==> state == TraceeState::Stopped,
        request_effect(state, req, outcome).0 == TraceeState::Running ==> (state == TraceeState::Running || req == Request::Continue),
{
}

/// A wait moves the state to `Stopped` only when it observed a stop, and to
/// `Running` only when it observed a resume; otherwise those states are kept, never entered.
pub proof fn lemma_wait_confirms(state: TraceeState, outcome: Result<RawWait, i32>)
    ensures
        wait_effect(state, outcome).0 == TraceeState::Stopped && state != TraceeState::Stopped ==> (outcome is Ok && classify_spec(outcome->Ok_0) is Stopped),
        wait_effect(state, outcome).0 == TraceeState::Running && state != TraceeState::Running ==> (outcome is Ok && classify_spec(outcome->Ok_0) == StopReason::Continued),
{
}

/// A wait that reports an exit or a fatal signal, or that finds the tracee gone,
/// always leaves the state `Exited`.
pub proof fn lemma_exit_is_final(state: TraceeState, outcome: Result<RawWait, i32>)
    ensures
        outcome matches Ok(RawWait::Exited(code)) ==> wait_effect(state, outcome) == (TraceeState::Exited, Ok::<StopReason, TraceError>(StopReason::ExitedWithCode(code))),
        outcome matches Ok(RawWait::Signaled(sig, _)) ==> wait_effect(state, outcome) == (TraceeState::Exited, Ok::<StopReason, TraceError>(StopReason::Signaled(sig))),
        outcome matches Err(e) && (e == ESRCH || e == ECHILD) ==> wait_effect(state, outcome) == (TraceeState::Exited, Err::<StopReason, TraceError>(TraceError::TraceeGone)),
{
}

} // verus!
