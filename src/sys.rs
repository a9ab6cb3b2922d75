use vstd::prelude::*;

use nix::sys::ptrace;
use nix::sys::wait::{waitpid, WaitPidFlag, WaitStatus};
use nix::unistd::Pid;

use crate::model::{RawWait, REGISTER_COUNT};

verus! {

/// Relies on nix::sys::ptrace::seize: issues `PTRACE_SEIZE` without options;
/// a failure carries the error number.
#[verifier::external_body]
pub(crate) fn sys_seize(pid: i32) -> (r: Result<(), i32>) {
    match ptrace::seize(Pid::from_raw(pid), ptrace::Options::empty()) {
        Ok(()) => Ok(()),
        Err(e) => Err(e as i32),
    }
}

/// Relies on nix::sys::ptrace::attach: issues `PTRACE_ATTACH`, which sends the
/// target a stop; a failure carries the error number.
#[verifier::external_body]
pub(crate) fn sys_attach(pid: i32) -> (r: Result<(), i32>) {
    match ptrace::attach(Pid::from_raw(pid)) {
        Ok(()) => Ok(()),
        Err(e) => Err(e as i32),
    }
}

/// Relies on nix::sys::ptrace::detach: issues `PTRACE_DETACH` without a signal;
/// a failure carries the error number.
#[verifier::external_body]
pub(crate) fn sys_detach(pid: i32) -> (r: Result<(), i32>) {
    match ptrace::detach(Pid::from_raw(pid), None) {
        Ok(()) => Ok(()),
        Err(e) => Err(e as i32),
    }
}

/// Relies on nix::sys::ptrace::interrupt: issues `PTRACE_INTERRUPT`;
/// a failure carries the error number.
#[verifier::external_body]
pub(crate) fn sys_interrupt(pid: i32) -> (r: Result<(), i32>) {
    match ptrace::interrupt(Pid::from_raw(pid)) {
        Ok(()) => Ok(()),
        Err(e) => Err(e as i32),
    }
}

/// Relies on nix::sys::ptrace::step: issues `PTRACE_SINGLESTEP` without a signal;
/// a failure carries the error number.
#[verifier::external_body]
pub(crate) fn sys_step(pid: i32) -> (r: Result<(), i32>) {
    match ptrace::step(Pid::from_raw(pid), None) {
        Ok(()) => Ok(()),
        Err(e) => Err(e as i32),
    }
}

/// Relies on nix::sys::ptrace::cont: issues `PTRACE_CONT` without a signal;
/// a failure carries the error number.
#[verifier::external_body]
pub(crate) fn sys_cont(pid: i32) -> (r: Result<(), i32>) {
    match ptrace::cont(Pid::from_raw(pid), None) {
        Ok(()) => Ok(()),
        Err(e) => Err(e as i32),
    }
}

/// Relies on nix::sys::ptrace::getregs: reads the x86-64 `user_regs_struct`,
/// whose fields are handed back in their declaration order.
#[verifier::external_body]
pub(crate) fn sys_getregs(pid: i32) -> (r: Result<Vec<u64>, i32>)
    ensures
        r matches Ok(bank) ==> bank@.len() == REGISTER_COUNT,
{
    match ptrace::getregs(Pid::from_raw(pid)) {
        Ok(g) => Ok(vec![
            g.r15, g.r14, g.r13, g.r12, g.rbp, g.rbx, g.r11, g.r10, g.r9, g.r8, g.rax, g.rcx,
            g.rdx, g.rsi, g.rdi, g.orig_rax, g.rip, g.cs, g.eflags, g.rsp, g.ss, g.fs_base,
            g.gs_base, g.ds, g.es, g.fs, g.gs,
        ]),
        Err(e) => Err(e as i32),
    }
}

/// Relies on nix::sys::wait::waitpid: blocks until the process changes status,
/// with the given raw option bits, and hands back nix's decoding of the status;
/// nix answers EINVAL for a status whose signal it does not know.
#[verifier::external_body]
pub(crate) fn sys_waitpid(pid: i32, options: i32) -> (r: Result<RawWait, i32>) {
    match waitpid(Pid::from_raw(pid), Some(WaitPidFlag::from_bits_truncate(options))) {
        Ok(WaitStatus::Exited(_, code)) => Ok(RawWait::Exited(code)),
        Ok(WaitStatus::Signaled(_, sig, core)) => Ok(RawWait::Signaled(sig as i32, core)),
        Ok(WaitStatus::Stopped(_, sig)) => Ok(RawWait::Stopped(sig as i32)),
        Ok(WaitStatus::PtraceEvent(_, sig, ev)) => Ok(RawWait::PtraceEvent(sig as i32, ev)),
        Ok(WaitStatus::PtraceSyscall(_)) => Ok(RawWait::PtraceSyscall),
        Ok(WaitStatus::Continued(_)) => Ok(RawWait::Continued),
        Ok(WaitStatus::StillAlive) => Ok(RawWait::StillAlive),
        Err(e) => Err(e as i32),
    }
}

/// Relies on nix::unistd::sleep: suspends the calling thread for up to the given
/// number of seconds.
#[verifier::external_body]
pub(crate) fn sys_sleep(seconds: u32) {
    nix::unistd::sleep(seconds);
}

} // verus!
