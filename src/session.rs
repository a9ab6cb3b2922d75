use vstd::prelude::*;

use crate::control::{
    attach_spec, control_post, count_detach, lemma_count_detach_push, wait_post, Controller,
    RegisterSnapshot, Registry, TraceeView, WaitMode,
};
use crate::launch::TargetProcess;
use crate::model::{gate_spec, AttachMode, Request, StopReason, TraceError, TraceeState, REGISTER_COUNT};
use crate::sys::sys_sleep;

verus! {

/// What a session reports as it goes: each confirmed stop reason and each snapshot.
pub enum Observation {
    Confirmed(StopReason),
    Registers(RegisterSnapshot),
}

/// Why a session ended early: the first failure, the failure of the detach that
/// followed it (if any), and where the target was left.
#[derive(Clone, Copy, Debug, PartialEq, Eq, Structural)]
pub struct SessionFailure {
    pub primary: TraceError,
    pub cleanup: Option<TraceError>,
    pub pid: i32,
    pub last_state: TraceeState,
}

/// The requests a session sends before its detach, in order.
pub open spec fn session_requests() -> Seq<Request> {
    seq![
        Request::Interrupt,
        Request::Wait,
        Request::ReadRegisters,
        Request::Step,
        Request::Wait,
        Request::ReadRegisters,
        Request::Continue,
        Request::Interrupt,
        Request::Wait,
    ]
}

/// In a session's requests every step and every register read comes after a
/// wait, with nothing but register reads in between; so with the log of a
/// completed session, each of them follows a wait that confirmed a stop.
pub proof fn lemma_session_steps_follow_waits(i: int)
    requires
        0 <= i < session_requests().len(),
        session_requests()[i] == Request::Step || session_requests()[i] == Request::ReadRegisters,
    ensures
        exists|j: int| 0 <= j < i && #[trigger] session_requests()[j] == Request::Wait
            && forall|k: int| j < k < i ==> #[trigger] session_requests()[k] == Request::ReadRegisters,
{
    let q = session_requests();
    if i <= 3 {
        assert(q[1] == Request::Wait);
    } else {
        assert(q[4] == Request::Wait);
    }
}

/// The shape of the `j`-th observation of a completed session: confirmed stops
/// alternating with full register snapshots.
pub open spec fn expected_observation(j: int, o: Observation) -> bool {
    if j % 2 == 0 {
        o matches Observation::Confirmed(StopReason::Stopped(_))
    } else {
        o matches Observation::Registers(s) && s@.len() == REGISTER_COUNT
    }
}

/// The log of a completed session: three confirmed stops and two snapshots
/// appended to what was there.
pub open spec fn session_logged(before: Seq<Observation>, after: Seq<Observation>) -> bool {
    &&& after.len() == before.len() + 5
    &&& after.subrange(0, before.len() as int) == before
    &&& forall|j: int| before.len() <= j < after.len() ==> expected_observation(j - before.len(), #[trigger] after[j])
}

/// The result of confirming a stop from the result of the wait.
pub open spec fn confirm_spec(w: Result<StopReason, TraceError>, state: TraceeState) -> Result<(), TraceError> {
    match w {
        Err(e) => Err(e),
        Ok(StopReason::Stopped(_)) => Ok(()),
        Ok(_) => if state == TraceeState::Exited {
            Err(TraceError::TraceeGone)
        } else {
            Err(TraceError::IllegalStateTransition)
        },
    }
}

/// Waits for the target and insists that the observed change is a stop. Every
/// observed reason is logged; a reason that is not a stop is `TraceeGone` when the
/// target exited and `IllegalStateTransition` otherwise.
pub fn confirm_stop(ctl: &mut Controller, log: &mut Vec<Observation>) -> (r: Result<(), TraceError>)
    ensures
        count_detach(final(ctl)@.sent) == count_detach(old(ctl)@.sent),
        exists|w: Result<StopReason, TraceError>| #[trigger] confirm_spec(w, final(ctl)@.state) == r
            && wait_post(old(ctl)@, final(ctl)@, w)
            && final(log)@ == (match w {
                Ok(reason) => old(log)@.push(Observation::Confirmed(reason)),
                Err(_) => old(log)@,
            }),
{
    let w = ctl.wait(WaitMode::TraceStops);
    let r = match w {
        Err(e) => Err(e),
        Ok(reason) => {
            log.push(Observation::Confirmed(reason));
            match reason {
                StopReason::Stopped(_) => Ok(()),
                _ => {
                    if ctl.state() == TraceeState::Exited {
                        Err(TraceError::TraceeGone)
                    } else {
                        Err(TraceError::IllegalStateTransition)
                    }
                },
            }
        },
    };
    assert(confirm_spec(w, ctl@.state) == r);
    r
}

/// What the control sequence guarantees: the identity of the target is kept, no
/// detach is sent, the requests sent are a prefix of the session's requests, the
/// log only grows, a refused first interrupt changes nothing, and on success every
/// request was sent, the target is stopped and the log holds the session's observations.
pub open spec fn drive_post(pre: TraceeView, post: TraceeView, log0: Seq<Observation>, log1: Seq<Observation>, r: Result<(), TraceError>) -> bool {
    &&& post.pid == pre.pid
    &&& post.mode == pre.mode
    &&& count_detach(post.sent) == count_detach(pre.sent)
    &&& (pre.state != TraceeState::Detached ==> post.state != TraceeState::Detached)
    &&& pre.sent.len() <= post.sent.len() <= pre.sent.len() + 9
    &&& post.sent == pre.sent + session_requests().take(post.sent.len() - pre.sent.len())
    &&& log0.len() <= log1.len()
    &&& log1.subrange(0, log0.len() as int) == log0
    &&& (gate_spec(pre.state, pre.mode, Request::Interrupt) matches Err(e) ==> r == Err::<(), TraceError>(e) && post == pre && log1 == log0)
    &&& (r is Ok ==> post.sent == pre.sent + session_requests() && post.state == TraceeState::Stopped && session_logged(log0, log1))
}

/// The control sequence of a session, without the final detach: interrupt,
/// confirm the stop, inspect, step, confirm the re-stop, inspect, continue,
/// pause, interrupt, confirm the stop. It stops at the first failure and returns it.
#[verifier::rlimit(50)]
pub fn drive(ctl: &mut Controller, pause_secs: u32, log: &mut Vec<Observation>) -> (r: Result<(), TraceError>)
    ensures
        final(ctl)@.pid == old(ctl)@.pid,
        final(ctl)@.mode == old(ctl)@.mode,
        count_detach(final(ctl)@.sent) == count_detach(old(ctl)@.sent),
        old(ctl)@.state != TraceeState::Detached ==> final(ctl)@.state != TraceeState::Detached,
        old(ctl)@.sent.len() <= final(ctl)@.sent.len() <= old(ctl)@.sent.len() + 9,
        final(ctl)@.sent == old(ctl)@.sent + session_requests().take(final(ctl)@.sent.len() - old(ctl)@.sent.len()),
        old(log)@.len() <= final(log)@.len(),
        final(log)@.subrange(0, old(log)@.len() as int) == old(log)@,
        gate_spec(old(ctl)@.state, old(ctl)@.mode, Request::Interrupt) matches Err(e) ==> r == Err::<(), TraceError>(e) && final(ctl)@ == old(ctl)@ && final(log)@ == old(log)@,
        r is Ok ==> final(ctl)@.sent == old(ctl)@.sent + session_requests() && final(ctl)@.state == TraceeState::Stopped && session_logged(old(log)@, final(log)@),
{
    let ghost s0 = ctl@.sent;
    let ghost l0 = log@;
    let ghost q = session_requests();
    assert(q.take(0) =~= Seq::<Request>::empty());
    assert(s0 + q.take(0) =~= s0);
    if let Err(e) = ctl.interrupt() {
        assert(ctl@.sent.len() == s0.len() ==> ctl@.sent =~= s0 + q.take(0));
        assert(ctl@.sent.len() == s0.len() + 1 ==> ctl@.sent =~= s0 + q.take(1));
        assert(log@.subrange(0, l0.len() as int) =~= l0);
        return Err(e);
    }
    assert(ctl@.sent =~= s0 + q.take(1));
    if let Err(e) = confirm_stop(ctl, log) {
        assert(ctl@.sent.len() == s0.len() + 1 ==> ctl@.sent =~= s0 + q.take(1));
        assert(ctl@.sent.len() == s0.len() + 2 ==> ctl@.sent =~= s0 + q.take(2));
        assert(log@.subrange(0, l0.len() as int) =~= l0);
        return Err(e);
    }
    assert(ctl@.sent =~= s0 + q.take(2));
    let l1 = log.len();
    match ctl.read_registers() {
        Err(e) => {
            assert(ctl@.sent.len() == s0.len() + 2 ==> ctl@.sent =~= s0 + q.take(2));
            assert(ctl@.sent.len() == s0.len() + 3 ==> ctl@.sent =~= s0 + q.take(3));
            assert(log@.subrange(0, l0.len() as int) =~= l0);
        return Err(e);
        },
        Ok(snap) => log.push(Observation::Registers(snap)),
    }
    assert(ctl@.sent =~= s0 + q.take(3));
    if let Err(e) = ctl.step() {
        assert(ctl@.sent.len() == s0.len() + 3 ==> ctl@.sent =~= s0 + q.take(3));
        assert(ctl@.sent.len() == s0.len() + 4 ==> ctl@.sent =~= s0 + q.take(4));
        assert(log@.subrange(0, l0.len() as int) =~= l0);
        return Err(e);
    }
    assert(ctl@.sent =~= s0 + q.take(4));
    if let Err(e) = confirm_stop(ctl, log) {
        assert(ctl@.sent.len() == s0.len() + 4 ==> ctl@.sent =~= s0 + q.take(4));
        assert(ctl@.sent.len() == s0.len() + 5 ==> ctl@.sent =~= s0 + q.take(5));
        assert(log@.subrange(0, l0.len() as int) =~= l0);
        return Err(e);
    }
    assert(ctl@.sent =~= s0 + q.take(5));
    match ctl.read_registers() {
        Err(e) => {
            assert(ctl@.sent.len() == s0.len() + 5 ==> ctl@.sent =~= s0 + q.take(5));
            assert(ctl@.sent.len() == s0.len() + 6 ==> ctl@.sent =~= s0 + q.take(6));
            assert(log@.subrange(0, l0.len() as int) =~= l0);
        return Err(e);
        },
        Ok(snap) => log.push(Observation::Registers(snap)),
    }
    assert(ctl@.sent =~= s0 + q.take(6));
    if let Err(e) = ctl.cont() {
        assert(ctl@.sent.len() == s0.len() + 6 ==> ctl@.sent =~= s0 + q.take(6));
        assert(ctl@.sent.len() == s0.len() + 7 ==> ctl@.sent =~= s0 + q.take(7));
        assert(log@.subrange(0, l0.len() as int) =~= l0);
        return Err(e);
    }
    assert(ctl@.sent =~= s0 + q.take(7));
    sys_sleep(pause_secs);
    if let Err(e) = ctl.interrupt() {
        assert(ctl@.sent.len() == s0.len() + 7 ==> ctl@.sent =~= s0 + q.take(7));
        assert(ctl@.sent.len() == s0.len() + 8 ==> ctl@.sent =~= s0 + q.take(8));
        assert(log@.subrange(0, l0.len() as int) =~= l0);
        return Err(e);
    }
    assert(ctl@.sent =~= s0 + q.take(8));
    let r = confirm_stop(ctl, log);
    assert(ctl@.sent.len() == s0.len() + 8 ==> ctl@.sent =~= s0 + q.take(8));
    assert(ctl@.sent.len() == s0.len() + 9 ==> ctl@.sent =~= s0 + q.take(9));
    assert(q.take(9) =~= q);
    assert(log@.subrange(0, l0.len() as int) =~= l0);
    r
}

/// How a session's outcome is put together from the control sequence's result and
/// the detach's: the first failure is primary and a failed detach after it is
/// secondary. A detach refused locally because the target had exited is no failure
/// of its own.
pub open spec fn combine_spec(driven: Result<(), TraceError>, released: Result<(), TraceError>, pid: i32, last_state: TraceeState) -> Result<(), SessionFailure> {
    match (driven, released) {
        (Ok(()), Ok(())) => Ok(()),
        (Ok(()), Err(d)) => Err(SessionFailure { primary: d, cleanup: None, pid, last_state }),
        (Err(e), Ok(())) => Err(SessionFailure { primary: e, cleanup: None, pid, last_state }),
        (Err(e), Err(d)) => Err(SessionFailure {
            primary: e,
            cleanup: if last_state == TraceeState::Exited && d == TraceError::IllegalStateTransition { None } else { Some(d) },
            pid,
            last_state,
        }),
    }
}

/// Puts a session's outcome together.
pub fn combine(driven: Result<(), TraceError>, released: Result<(), TraceError>, pid: i32, last_state: TraceeState) -> (r: Result<(), SessionFailure>)
    ensures
        r == combine_spec(driven, released, pid, last_state),
{
    match (driven, released) {
        (Ok(()), Ok(())) => Ok(()),
        (Ok(()), Err(d)) => Err(SessionFailure { primary: d, cleanup: None, pid, last_state }),
        (Err(e), Ok(())) => Err(SessionFailure { primary: e, cleanup: None, pid, last_state }),
        (Err(e), Err(d)) => {
            let cleanup = if last_state == TraceeState::Exited && d == TraceError::IllegalStateTransition {
                None
            } else {
                Some(d)
            };
            Err(SessionFailure { primary: e, cleanup, pid, last_state })
        },
    }
}

/// What a whole session on an attached target guarantees: the control sequence
/// ran as `drive_post` says and answered `d`, then a detach was asked for and
/// answered `rel`, and the outcome is their combination.
pub open spec fn session_post(pre: TraceeView, post: TraceeView, log0: Seq<Observation>, log1: Seq<Observation>, r: Result<(), SessionFailure>) -> bool {
    exists|d: Result<(), TraceError>, rel: Result<(), TraceError>, mid: TraceeView|
        #[trigger] combine_spec(d, rel, pre.pid, post.state) == r
            && #[trigger] drive_post(pre, mid, log0, log1, d)
            && control_post(mid, post, Request::Detach, rel)
}

/// Runs a whole session on an attached target and releases it at the end. Whether
/// the sequence completes or fails part-way, exactly one detach is sent, unless the
/// target is already gone; a failed detach is reported beside the first failure.
pub fn run_attached(registry: &mut Registry, ctl: &mut Controller, pause_secs: u32, log: &mut Vec<Observation>) -> (r: Result<(), SessionFailure>)
    requires
        old(ctl)@.state != TraceeState::Detached,
    ensures
        session_post(old(ctl)@, final(ctl)@, old(log)@, final(log)@, r),
        final(ctl)@.pid == old(ctl)@.pid,
        count_detach(final(ctl)@.sent) <= count_detach(old(ctl)@.sent) + 1,
        final(ctl)@.state != TraceeState::Exited ==> count_detach(final(ctl)@.sent) == count_detach(old(ctl)@.sent) + 1,
        r is Ok ==> final(ctl)@.state == TraceeState::Detached
            && final(ctl)@.sent == old(ctl)@.sent + session_requests().push(Request::Detach)
            && session_logged(old(log)@, final(log)@)
            && final(registry)@ == old(registry)@.remove(old(ctl)@.pid),
        r matches Err(f) ==> f.pid == old(ctl)@.pid && f.last_state == final(ctl)@.state,
{
    let ghost pre = ctl@;
    let driven = drive(ctl, pause_secs, log);
    let ghost mid = ctl@;
    let released = registry.detach(ctl);
    let r = combine(driven, released, ctl.pid(), ctl.state());
    assert(combine_spec(driven, released, pre.pid, ctl@.state) == r && drive_post(pre, mid, old(log)@, log@, driven) && control_post(mid, ctl@, Request::Detach, released));
    if r.is_ok() {
        assert(ctl@.sent =~= pre.sent + session_requests().push(Request::Detach));
    }
    r
}

/// The process identifier a target is traced under; one beyond the range of
/// identifiers becomes `-1`, which no process has.
pub open spec fn trace_pid(target: &TargetProcess) -> i32 {
    if target.pid <= i32::MAX as u32 { target.pid as i32 } else { -1i32 }
}

/// Seizes the target and runs a whole session on it. A refused attach is reported
/// as the primary error, with nothing else sent and nothing to release.
pub fn trace_session(registry: &mut Registry, target: &TargetProcess, traced_elsewhere: bool, pause_secs: u32, log: &mut Vec<Observation>) -> (r: Result<(), SessionFailure>)
    ensures
        attach_spec(old(registry)@, trace_pid(target), traced_elsewhere, Ok(())).1 matches Err(e) ==> r == Err::<(), SessionFailure>(SessionFailure { primary: e, cleanup: None, pid: trace_pid(target), last_state: TraceeState::Running })
            && final(registry)@ == old(registry)@ && final(log)@ == old(log)@,
        exists|o: Result<(), i32>| {
            let (held, attached) = #[trigger] attach_spec(old(registry)@, trace_pid(target), traced_elsewhere, o);
            match attached {
                Err(e) => r == Err::<(), SessionFailure>(SessionFailure { primary: e, cleanup: None, pid: trace_pid(target), last_state: TraceeState::Running })
                    && final(registry)@ == old(registry)@ && final(log)@ == old(log)@,
                Ok(()) => exists|post: TraceeView| session_post(
                    TraceeView { pid: trace_pid(target), mode: AttachMode::Seize, state: TraceeState::Running, sent: seq![Request::Seize] },
                    post, old(log)@, final(log)@, r),
            }
        },
        r is Ok ==> final(registry)@ == old(registry)@ && session_logged(old(log)@, final(log)@),
        r matches Err(f) ==> f.pid == trace_pid(target),
{
    let pid: i32 = if target.pid <= i32::MAX as u32 { target.pid as i32 } else { -1 };
    match registry.attach(pid, AttachMode::Seize, traced_elsewhere) {
        Ok(mut ctl) => {
            let ghost pre = ctl@;
            let r = run_attached(registry, &mut ctl, pause_secs, log);
            assert(session_post(pre, ctl@, old(log)@, log@, r));
            r
        },
        Err(e) => Err(SessionFailure { primary: e, cleanup: None, pid, last_state: TraceeState::Running }),
    }
}

} // verus!
