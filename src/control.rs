use vstd::prelude::*;

use crate::machine::{after_request, after_wait, control_error_spec, request_effect, wait_effect};
use crate::model::{
    gate, gate_spec, AttachMode, RawWait, Request, StopReason, TraceError, TraceeState, EPERM,
    ESRCH, REGISTER_COUNT,
};
use crate::sys::{
    sys_attach, sys_cont, sys_detach, sys_getregs, sys_interrupt, sys_seize, sys_step, sys_waitpid,
};

verus! {

/// Position of the instruction pointer in a register snapshot.
pub const IP_INDEX: usize = 16;

/// Wait option bit that also reports stops of traced processes that are not children.
pub const WAIT_ALL: i32 = 0x4000_0000;

/// Wait option bit that also reports a resume by a continue signal.
pub const WAIT_CONTINUED: i32 = 8;

/// Which status changes a wait reports.
#[derive(Clone, Copy, Debug, PartialEq, Eq, Structural)]
pub enum WaitMode {
    /// Also report stops caused by trace events (needed right after a stop-attach).
    TraceStops,
    /// Report only the general changes: exit, signal, continue, and stops of children.
    General,
}

/// Number of detach requests in a log of requests.
pub open spec fn count_detach(log: Seq<Request>) -> nat
    decreases log.len(),
{
    if log.len() == 0 {
        0
    } else {
        count_detach(log.drop_last()) + if log.last() == Request::Detach { 1nat } else { 0nat }
    }
}

/// Appending a request adds one to the detach count exactly when it is a detach.
pub proof fn lemma_count_detach_push(log: Seq<Request>, req: Request)
    ensures
        count_detach(log.push(req)) == count_detach(log) + if req == Request::Detach { 1nat } else { 0nat },
{
    assert(log.push(req).drop_last() =~= log);
}

/// The general-purpose registers of a stopped target, in the architecture's order.
pub struct RegisterSnapshot {
    bank: Vec<u64>,
}

impl View for RegisterSnapshot {
    type V = Seq<u64>;

    closed spec fn view(&self) -> Seq<u64> {
        self.bank@
    }
}

impl RegisterSnapshot {
    /// Number of registers held.
    pub fn len(&self) -> (r: usize)
        ensures
            r == self@.len(),
    {
        self.bank.len()
    }

    /// The value of the register at position `i`, if there is one.
    pub fn value(&self, i: usize) -> (r: Option<u64>)
        ensures
            r == (if i < self@.len() { Some(self@[i as int]) } else { None::<u64> }),
    {
        if i < self.bank.len() {
            Some(self.bank[i])
        } else {
            None
        }
    }

    /// The instruction pointer at the moment of capture.
    pub fn instruction_pointer(&self) -> (r: u64)
        requires
            self@.len() == REGISTER_COUNT,
        ensures
            r == self@[IP_INDEX as int],
    {
        self.bank[IP_INDEX]
    }
}

/// What is known of a traced target: its identifier, how it was attached, the
/// last confirmed state, and every request that was forwarded to the operating system.
pub struct TraceeView {
    pub pid: i32,
    pub mode: AttachMode,
    pub state: TraceeState,
    pub sent: Seq<Request>,
}

/// The capability to control one traced process. It cannot be copied, and it is
/// revoked by a detach.
pub struct Controller {
    pid: i32,
    mode: AttachMode,
    state: TraceeState,
    sent: Ghost<Seq<Request>>,
}

impl View for Controller {
    type V = TraceeView;

    closed spec fn view(&self) -> TraceeView {
        TraceeView { pid: self.pid, mode: self.mode, state: self.state, sent: self.sent@ }
    }
}

/// The relation between a controller before and after a control request `req`
/// that answers `r`: refused locally with nothing sent, or sent once and moved
/// as the operating system's answer dictates.
pub open spec fn control_post<T>(pre: TraceeView, post: TraceeView, req: Request, r: Result<T, TraceError>) -> bool {
    &&& post.pid == pre.pid
    &&& post.mode == pre.mode
    &&& match gate_spec(pre.state, pre.mode, req) {
        Err(e) => r == Err::<T, TraceError>(e) && post == pre,
        Ok(()) => {
            &&& post.sent == pre.sent.push(req)
            &&& exists|o: Result<(), i32>| #[trigger] request_effect(pre.state, req, o) == (post.state, status_of(r))
        },
    }
}

/// The relation between a controller before and after a wait that answers `r`:
/// refused locally with nothing sent, or sent once and moved to what was observed.
pub open spec fn wait_post(pre: TraceeView, post: TraceeView, r: Result<StopReason, TraceError>) -> bool {
    &&& post.pid == pre.pid
    &&& post.mode == pre.mode
    &&& match gate_spec(pre.state, pre.mode, Request::Wait) {
        Err(e) => r == Err::<StopReason, TraceError>(e) && post == pre,
        Ok(()) => {
            &&& post.sent == pre.sent.push(Request::Wait)
            &&& exists|o: Result<RawWait, i32>| #[trigger] wait_effect(pre.state, o) == (post.state, r)
        },
    }
}

/// Whether a result is a success, forgetting its value.
pub open spec fn status_of<T>(r: Result<T, TraceError>) -> Result<(), TraceError> {
    match r {
        Ok(_) => Ok(()),
        Err(e) => Err(e),
    }
}

/// The option bits that a wait in the given mode hands to the operating system.
pub open spec fn wait_options_spec(mode: WaitMode) -> i32 {
    match mode {
        WaitMode::TraceStops => WAIT_ALL,
        WaitMode::General => WAIT_CONTINUED,
    }
}

/// Computes the option bits of a wait.
pub fn wait_options(mode: WaitMode) -> (r: i32)
    ensures
        r == wait_options_spec(mode),
{
    match mode {
        WaitMode::TraceStops => WAIT_ALL,
        WaitMode::General => WAIT_CONTINUED,
    }
}

impl Controller {
    /// The process identifier of the target.
    pub fn pid(&self) -> (r: i32)
        ensures
            r == self@.pid,
    {
        self.pid
    }

    /// How the target was attached.
    pub fn mode(&self) -> (r: AttachMode)
        ensures
            r == self@.mode,
    {
        self.mode
    }

    /// The last confirmed state of the target.
    pub fn state(&self) -> (r: TraceeState)
        ensures
            r == self@.state,
    {
        self.state
    }

    /// Checks a request against the last confirmed state; on success records it as sent.
    fn authorize(&mut self, req: Request) -> (r: Result<(), TraceError>)
        ensures
            r == gate_spec(old(self)@.state, old(self)@.mode, req),
            r is Ok ==> final(self)@ == (TraceeView { sent: old(self)@.sent.push(req), ..old(self)@ }),
            r is Err ==> final(self)@ == old(self)@,
            count_detach(final(self)@.sent) == count_detach(old(self)@.sent) + if r is Ok && req == Request::Detach { 1nat } else { 0nat },
    {
        let r = gate(self.state, self.mode, req);
        if r.is_ok() {
            proof {
                lemma_count_detach_push(self.sent@, req);
            }
            self.sent = Ghost(self.sent@.push(req));
        }
        r
    }

    /// Records the answer of the operating system to a sent request.
    fn settle(&mut self, req: Request, outcome: Result<(), i32>) -> (r: Result<(), TraceError>)
        ensures
            (final(self)@.state, r) == request_effect(old(self)@.state, req, outcome),
            final(self)@ == (TraceeView { state: final(self)@.state, ..old(self)@ }),
    {
        let (next, r) = after_request(self.state, req, outcome);
        self.state = next;
        r
    }

    /// Asks a seized, running target to stop. The stop is confirmed only by a later wait.
    pub fn interrupt(&mut self) -> (r: Result<(), TraceError>)
        ensures
            control_post(old(self)@, final(self)@, Request::Interrupt, r),
            count_detach(final(self)@.sent) == count_detach(old(self)@.sent),
    {
        self.authorize(Request::Interrupt)?;
        let outcome = sys_interrupt(self.pid);
        self.settle(Request::Interrupt, outcome)
    }

    /// Resumes a stopped target for one instruction. The re-stop is confirmed only by a later wait.
    pub fn step(&mut self) -> (r: Result<(), TraceError>)
        ensures
            control_post(old(self)@, final(self)@, Request::Step, r),
            count_detach(final(self)@.sent) == count_detach(old(self)@.sent),
    {
        self.authorize(Request::Step)?;
        let outcome = sys_step(self.pid);
        self.settle(Request::Step, outcome)
    }

    /// Resumes a stopped target indefinitely, without waiting.
    pub fn cont(&mut self) -> (r: Result<(), TraceError>)
        ensures
            control_post(old(self)@, final(self)@, Request::Continue, r),
            count_detach(final(self)@.sent) == count_detach(old(self)@.sent),
    {
        self.authorize(Request::Continue)?;
        let outcome = sys_cont(self.pid);
        self.settle(Request::Continue, outcome)
    }

    /// Reads the general-purpose registers of a stopped target, afresh on every call.
    pub fn read_registers(&mut self) -> (r: Result<RegisterSnapshot, TraceError>)
        ensures
            control_post(old(self)@, final(self)@, Request::ReadRegisters, r),
            count_detach(final(self)@.sent) == count_detach(old(self)@.sent),
            r matches Ok(snap) ==> snap@.len() == REGISTER_COUNT && final(self)@.state == TraceeState::Stopped,
    {
        self.authorize(Request::ReadRegisters)?;
        match sys_getregs(self.pid) {
            Ok(bank) => {
                let ghost pre = self@;
                let _ = self.settle(Request::ReadRegisters, Ok(()));
                assert(request_effect(pre.state, Request::ReadRegisters, Ok(())).0 == self@.state);
                Ok(RegisterSnapshot { bank })
            },
            Err(errno) => {
                let r = self.settle(Request::ReadRegisters, Err(errno));
                match r {
                    Ok(()) => Err(TraceError::Os(errno)),
                    Err(e) => Err(e),
                }
            },
        }
    }

    /// Blocks until the target's status changes, classifies the change, and moves
    /// the state to what was observed.
    pub fn wait(&mut self, mode: WaitMode) -> (r: Result<StopReason, TraceError>)
        ensures
            wait_post(old(self)@, final(self)@, r),
            count_detach(final(self)@.sent) == count_detach(old(self)@.sent),
    {
        self.authorize(Request::Wait)?;
        let options = wait_options(mode);
        let outcome = sys_waitpid(self.pid, options);
        let (next, r) = after_wait(self.state, outcome);
        self.state = next;
        r
    }
}

/// The request that attaching in a mode sends.
pub open spec fn attach_request(mode: AttachMode) -> Request {
    match mode {
        AttachMode::Seize => Request::Seize,
        AttachMode::StopAttach => Request::Attach,
    }
}

/// The error that a failed attach stands for; a refusal of a target that another
/// tracer holds is `AlreadyTraced`.
pub open spec fn attach_error_spec(errno: i32, traced_elsewhere: bool) -> TraceError {
    if errno == ESRCH {
        TraceError::NoSuchProcess
    } else if errno == EPERM && traced_elsewhere {
        TraceError::AlreadyTraced
    } else if errno == EPERM {
        TraceError::PermissionDenied
    } else {
        TraceError::Os(errno)
    }
}

/// Held identifiers and result after an attach to `pid`, given what the
/// operating system would answer.
pub open spec fn attach_spec(held: Set<i32>, pid: i32, traced_elsewhere: bool, outcome: Result<(), i32>) -> (Set<i32>, Result<(), TraceError>) {
    if pid <= 0 {
        (held, Err(TraceError::NoSuchProcess))
    } else if held.contains(pid) {
        (held, Err(TraceError::AlreadyTraced))
    } else {
        match outcome {
            Ok(()) => (held.insert(pid), Ok(())),
            Err(errno) => (held, Err(attach_error_spec(errno, traced_elsewhere))),
        }
    }
}

/// Maps the error number of a failed attach to an error of this library.
pub fn attach_error(errno: i32, traced_elsewhere: bool) -> (r: TraceError)
    ensures
        r == attach_error_spec(errno, traced_elsewhere),
{
    if errno == ESRCH {
        TraceError::NoSuchProcess
    } else if errno == EPERM && traced_elsewhere {
        TraceError::AlreadyTraced
    } else if errno == EPERM {
        TraceError::PermissionDenied
    } else {
        TraceError::Os(errno)
    }
}

/// Two attach attempts on the same identifier never both succeed, and when the
/// first one succeeds the second fails with `AlreadyTraced`: through the same
/// registry, or through another one that learns the target is traced elsewhere
/// and is refused by the kernel.
pub proof fn lemma_capability_singular(held: Set<i32>, pid: i32, elsewhere: bool, first: Result<(), i32>, second: Result<(), i32>)
    ensures
        !(attach_spec(held, pid, elsewhere, first).1 is Ok && attach_spec(attach_spec(held, pid, elsewhere, first).0, pid, elsewhere, second).1 is Ok),
        attach_spec(held, pid, elsewhere, first).1 is Ok ==> attach_spec(attach_spec(held, pid, elsewhere, first).0, pid, elsewhere, second).1 == Err::<(), TraceError>(TraceError::AlreadyTraced),
{
}

/// A second, independent registry attaching to a target that the first one
/// holds is refused by the kernel with `EPERM`, and reports `AlreadyTraced`.
pub proof fn lemma_independent_sessions(first: Set<i32>, second: Set<i32>, pid: i32, o1: Result<(), i32>)
    requires
        !second.contains(pid),
    ensures
        attach_spec(first, pid, false, o1).1 is Ok ==> attach_spec(second, pid, true, Err(EPERM)).1 == Err::<(), TraceError>(TraceError::AlreadyTraced),
{
}

/// The attachment manager: it hands out at most one controller per target identifier.
pub struct Registry {
    attached: Vec<i32>,
}

impl View for Registry {
    type V = Set<i32>;

    closed spec fn view(&self) -> Set<i32> {
        Set::new(|p: i32| self.attached@.contains(p))
    }
}

impl Registry {
    /// A registry that holds no capability.
    pub fn new() -> (r: Registry)
        ensures
            r@ == Set::<i32>::empty(),
    {
        let r = Registry { attached: Vec::new() };
        assert(r@ =~= Set::<i32>::empty());
        r
    }

    /// Whether a capability for `pid` is held.
    pub fn holds(&self, pid: i32) -> (r: bool)
        ensures
            r == self@.contains(pid),
    {
        let mut i: usize = 0;
        while i < self.attached.len()
            invariant
                i <= self.attached@.len(),
                forall|j: int| 0 <= j < i ==> self.attached@[j] != pid,
            decreases self.attached@.len() - i,
        {
            if self.attached[i] == pid {
                assert(self.attached@[i as int] == pid);
                return true;
            }
            i += 1;
        }
        false
    }

    /// Drops `pid` from the held identifiers.
    fn forget(&mut self, pid: i32)
        ensures
            final(self)@ == old(self)@.remove(pid),
    {
        let mut kept: Vec<i32> = Vec::new();
        let mut i: usize = 0;
        while i < self.attached.len()
            invariant
                i <= self.attached@.len(),
                forall|x: i32| kept@.contains(x) <==> (x != pid && exists|j: int| 0 <= j < i && self.attached@[j] == x),
            decreases self.attached@.len() - i,
        {
            let x = self.attached[i];
            let ghost before = kept@;
            if x != pid {
                kept.push(x);
                assert(kept@[before.len() as int] == x);
            }
            assert forall|y: i32| kept@.contains(y) <==> (y != pid && exists|j: int| 0 <= j < i + 1 && self.attached@[j] == y) by {
                if kept@.contains(y) {
                    let k = choose|k: int| 0 <= k < kept@.len() && kept@[k] == y;
                    if k < before.len() {
                        assert(before[k] == y);
                        assert(before.contains(y));
                    } else {
                        assert(y == x);
                        assert(self.attached@[i as int] == y);
                    }
                }
                if y != pid && exists|j: int| 0 <= j < i + 1 && self.attached@[j] == y {
                    let j = choose|j: int| 0 <= j < i + 1 && self.attached@[j] == y;
                    if j < i {
                        assert(before.contains(y));
                        let k = choose|k: int| 0 <= k < before.len() && before[k] == y;
                        assert(kept@[k] == y);
                    } else {
                        assert(y == x);
                        assert(kept@[before.len() as int] == y);
                    }
                }
            }
            i += 1;
        }
        self.attached = kept;
        assert(self@ =~= old(self)@.remove(pid));
    }

    /// Establishes the tracing relationship with `pid` in the given mode. An
    /// identifier already held here is refused with `AlreadyTraced`, and an
    /// identifier that is not positive with `NoSuchProcess`, before anything is sent.
    ///
    /// `traced_elsewhere` tells whether another tracer is known to hold the
    /// target; the kernel's refusal of such a target is reported as `AlreadyTraced`.
    /// The controller's log of sent requests starts with the attach request.
    pub fn attach(&mut self, pid: i32, mode: AttachMode, traced_elsewhere: bool) -> (r: Result<Controller, TraceError>)
        ensures
            exists|o: Result<(), i32>| #[trigger] attach_spec(old(self)@, pid, traced_elsewhere, o) == (final(self)@, status_of(r)),
            r matches Ok(c) ==> c@ == (TraceeView { pid, mode, state: TraceeState::Running, sent: seq![attach_request(mode)] }),
    {
        if pid <= 0 {
            assert(attach_spec(old(self)@, pid, traced_elsewhere, Ok(())) == (self@, status_of::<Controller>(Err(TraceError::NoSuchProcess))));
            return Err(TraceError::NoSuchProcess);
        }
        if self.holds(pid) {
            assert(attach_spec(old(self)@, pid, traced_elsewhere, Ok(())) == (self@, status_of::<Controller>(Err(TraceError::AlreadyTraced))));
            return Err(TraceError::AlreadyTraced);
        }
        let (outcome, req) = match mode {
            AttachMode::Seize => (sys_seize(pid), Request::Seize),
            AttachMode::StopAttach => (sys_attach(pid), Request::Attach),
        };
        match outcome {
            Ok(()) => {
                let ghost before = self.attached@;
                self.attached.push(pid);
                assert forall|p: i32| self.attached@.contains(p) <==> (before.contains(p) || p == pid) by {
                    if before.contains(p) {
                        let k = choose|k: int| 0 <= k < before.len() && before[k] == p;
                        assert(self.attached@[k] == p);
                    }
                    if self.attached@.contains(p) && p != pid {
                        let k = choose|k: int| 0 <= k < self.attached@.len() && self.attached@[k] == p;
                        assert(before[k] == p);
                    }
                    if p == pid {
                        assert(self.attached@[before.len() as int] == pid);
                    }
                }
                assert(self@ =~= old(self)@.insert(pid));
                let c = Controller { pid, mode, state: TraceeState::Running, sent: Ghost(Seq::empty().push(req)) };
                assert(attach_spec(old(self)@, pid, traced_elsewhere, outcome) == (self@, status_of::<Controller>(Ok(c))));
                Ok(c)
            },
            Err(errno) => {
                let e = attach_error(errno, traced_elsewhere);
                assert(attach_spec(old(self)@, pid, traced_elsewhere, outcome) == (self@, status_of::<Controller>(Err(e))));
                Err(e)
            },
        }
    }

    /// Releases the tracing relationship; the target resumes running freely and
    /// the capability is revoked. Legal in every state but `Exited`.
    pub fn detach(&mut self, ctl: &mut Controller) -> (r: Result<(), TraceError>)
        ensures
            control_post(old(ctl)@, final(ctl)@, Request::Detach, r),
            count_detach(final(ctl)@.sent) == count_detach(old(ctl)@.sent) + if gate_spec(old(ctl)@.state, old(ctl)@.mode, Request::Detach) is Ok { 1nat } else { 0nat },
            final(self)@ == if gate_spec(old(ctl)@.state, old(ctl)@.mode, Request::Detach) is Ok
                && (final(ctl)@.state == TraceeState::Detached || final(ctl)@.state == TraceeState::Exited) {
                old(self)@.remove(old(ctl)@.pid)
            } else {
                old(self)@
            },
    {
        ctl.authorize(Request::Detach)?;
        let outcome = sys_detach(ctl.pid);
        let r = ctl.settle(Request::Detach, outcome);
        if ctl.state == TraceeState::Detached || ctl.state == TraceeState::Exited {
            self.forget(ctl.pid);
        }
        r
    }

    /// Drops the identifier of a target that has exited, so that it can be attached anew.
    pub fn release(&mut self, ctl: &Controller) -> (r: bool)
        ensures
            r == (ctl@.state == TraceeState::Exited),
            final(self)@ == if r { old(self)@.remove(ctl@.pid) } else { old(self)@ },
    {
        if ctl.state == TraceeState::Exited {
            self.forget(ctl.pid);
            true
        } else {
            false
        }
    }
}

} // verus!
