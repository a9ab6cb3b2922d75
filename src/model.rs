use vstd::prelude::*;

verus! {

/// Error number of a target that does not exist, or is not traced by us.
pub const ESRCH: i32 = 3;

/// Error number of a request the kernel does not permit.
pub const EPERM: i32 = 1;

/// Error number of a wait on a process that is not our child or tracee.
pub const ECHILD: i32 = 10;

/// Error number of an invalid argument; a wait with valid options answers it
/// only for a status whose signal it cannot decode.
pub const EINVAL: i32 = 22;

/// Signal number of a trace trap, reported by trace-event stops.
pub const SIGTRAP: i32 = 5;

/// Number of general-purpose registers that the kernel reports on x86-64.
pub const REGISTER_COUNT: usize = 27;

/// Lifecycle phase of a traced process, as last confirmed.
#[derive(Clone, Copy, Debug, PartialEq, Eq, Structural)]
pub enum TraceeState {
    Running,
    StopPending,
    Stopped,
    Detached,
    Exited,
}

/// How the tracing relationship was established.
#[derive(Clone, Copy, Debug, PartialEq, Eq, Structural)]
pub enum AttachMode {
    /// Attaching sends the target a stop.
    StopAttach,
    /// Attaching leaves the target running; it can later be interrupted.
    Seize,
}

/// A control request that may be forwarded to the operating system.
#[derive(Clone, Copy, Debug, PartialEq, Eq, Structural)]
pub enum Request {
    /// Attach without stopping the target.
    Seize,
    /// Attach by sending the target a stop.
    Attach,
    Interrupt,
    Step,
    Continue,
    ReadRegisters,
    Wait,
    Detach,
}

/// What a wait reported, before classification.
#[derive(Clone, Copy, Debug, PartialEq, Eq, Structural)]
pub enum RawWait {
    /// The process exited with this code.
    Exited(i32),
    /// The process was terminated by this signal; the flag tells whether a core was dumped.
    Signaled(i32, bool),
    /// The process stopped on this signal.
    Stopped(i32),
    /// The process stopped on a trace event: the signal and the event number.
    PtraceEvent(i32, i32),
    /// The process stopped at a system call boundary.
    PtraceSyscall,
    /// The process was resumed by a continue signal.
    Continued,
    /// Nothing changed yet (only reported for non-blocking waits).
    StillAlive,
}

/// Classified result of a wait observation.
#[derive(Clone, Copy, Debug, PartialEq, Eq, Structural)]
pub enum StopReason {
    /// The process is halted, on this signal; registers are readable.
    Stopped(i32),
    /// The process was terminated by this signal.
    Signaled(i32),
    /// The process exited with this code.
    ExitedWithCode(i32),
    /// The process was resumed.
    Continued,
    /// A wait result that is not recognised.
    Unknown,
}

/// Errors of launching, attaching and controlling a target.
#[derive(Clone, Copy, Debug, PartialEq, Eq, Structural)]
pub enum TraceError {
    /// The launch path does not denote an executable regular file.
    InvalidTarget,
    /// The operating system could not spawn the process (error number).
    LaunchFailed(i32),
    /// The target does not exist or has already exited.
    NoSuchProcess,
    /// The target may not be traced by this controller.
    PermissionDenied,
    /// Another tracer holds the capability for this target.
    AlreadyTraced,
    /// The target exited or became untraceable during a control or wait call.
    TraceeGone,
    /// The operation is not legal in the last confirmed state.
    IllegalStateTransition,
    /// The capability was released by a detach.
    CapabilityRevoked,
    /// Any other operating-system failure (error number).
    Os(i32),
}

/// Which requests are legal in which confirmed state, before anything is sent.
pub open spec fn gate_spec(state: TraceeState, mode: AttachMode, req: Request) -> Result<(), TraceError> {
    if state == TraceeState::Detached {
        Err(TraceError::CapabilityRevoked)
    } else if state == TraceeState::Exited {
        Err(TraceError::IllegalStateTransition)
    } else {
        match req {
            Request::Interrupt => if state == TraceeState::Running && mode == AttachMode::Seize {
                Ok(())
            } else {
                Err(TraceError::IllegalStateTransition)
            },
            Request::Step | Request::Continue | Request::ReadRegisters => if state == TraceeState::Stopped {
                Ok(())
            } else {
                Err(TraceError::IllegalStateTransition)
            },
            Request::Wait => Ok(()),
            Request::Detach => Ok(()),
            Request::Seize | Request::Attach => Err(TraceError::IllegalStateTransition),
        }
    }
}

/// While the capability is held, stepping, continuing and reading registers are
/// refused with `IllegalStateTransition` in every state but `Stopped`; the
/// controller then forwards nothing (see `control_post`).
pub proof fn lemma_illegal_calls_refused(state: TraceeState, mode: AttachMode)
    requires
        state != TraceeState::Stopped,
        state != TraceeState::Detached,
    ensures
        gate_spec(state, mode, Request::Step) == Err::<(), TraceError>(TraceError::IllegalStateTransition),
        gate_spec(state, mode, Request::Continue) == Err::<(), TraceError>(TraceError::IllegalStateTransition),
        gate_spec(state, mode, Request::ReadRegisters) == Err::<(), TraceError>(TraceError::IllegalStateTransition),
{
}

/// Decides locally whether a request may be forwarded in the given state.
pub fn gate(state: TraceeState, mode: AttachMode, req: Request) -> (r: Result<(), TraceError>)
    ensures
        r == gate_spec(state, mode, req),
{
    match state {
        TraceeState::Detached => Err(TraceError::CapabilityRevoked),
        TraceeState::Exited => Err(TraceError::IllegalStateTransition),
        _ => match req {
            Request::Interrupt => {
                if state == TraceeState::Running && mode == AttachMode::Seize {
                    Ok(())
                } else {
                    Err(TraceError::IllegalStateTransition)
                }
            },
            Request::Step | Request::Continue | Request::ReadRegisters => {
                if state == TraceeState::Stopped {
                    Ok(())
                } else {
                    Err(TraceError::IllegalStateTransition)
                }
            },
            Request::Wait => Ok(()),
            Request::Detach => Ok(()),
            Request::Seize | Request::Attach => Err(TraceError::IllegalStateTransition),
        },
    }
}

} // verus!
