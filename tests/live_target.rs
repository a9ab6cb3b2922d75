use nix::spawn::{posix_spawnp, PosixSpawnAttr, PosixSpawnFileActions};
use nix::sys::signal::{kill, Signal};
use nix::sys::wait::{waitpid, WaitStatus};
use nix::unistd::Pid;
use nix::NixPath;

use ptrace_control::control::{Registry, WaitMode};
use ptrace_control::launch::{preflight, spawned, PathKind, TargetProcess};
use ptrace_control::model::{AttachMode, StopReason, TraceError, TraceeState};
use ptrace_control::session::{trace_session, Observation};

fn spawn(program: &str, arg: &str) -> Result<TargetProcess, TraceError> {
    let fa = PosixSpawnFileActions::init().unwrap();
    let attr = PosixSpawnAttr::init().unwrap();
    let outcome = program
        .with_nix_path(|p| arg.with_nix_path(|a| posix_spawnp(p, &fa, &attr, &[p, a], &[p; 0])))
        .unwrap()
        .unwrap();
    match outcome {
        Ok(pid) => {
            // give the child time to finish its exec before anything attaches
            nix::unistd::sleep(1);
            spawned(Ok(pid.as_raw() as u32), vec![arg.to_string()])
        }
        Err(e) => spawned(Err(e as i32), vec![arg.to_string()]),
    }
}

/// A shell spinning in a loop that makes no system call: it can be stepped at any time.
fn busy() -> TargetProcess {
    let fa = PosixSpawnFileActions::init().unwrap();
    let attr = PosixSpawnAttr::init().unwrap();
    let pid = "sh"
        .with_nix_path(|p| {
            "-c".with_nix_path(|c| {
                "while :; do :; done".with_nix_path(|s| posix_spawnp(p, &fa, &attr, &[p, c, s], &[p; 0]))
            })
        })
        .unwrap()
        .unwrap()
        .unwrap()
        .unwrap();
    // give the child time to finish its exec before anything attaches
    nix::unistd::sleep(1);
    spawned(Ok(pid.as_raw() as u32), vec!["-c".to_string(), "while :; do :; done".to_string()]).unwrap()
}

/// Ends a target that was left running, and checks that it was still alive.
fn end(pid: u32) {
    kill(Pid::from_raw(pid as i32), Signal::SIGKILL).unwrap();
    assert_eq!(reap(pid), WaitStatus::Signaled(Pid::from_raw(pid as i32), Signal::SIGKILL, false));
}

fn reap(pid: u32) -> WaitStatus {
    waitpid(Pid::from_raw(pid as i32), None).unwrap()
}

#[test]
fn seize_interrupt_wait_detach_leaves_target_running() {
    let target = spawn("sleep", "2").unwrap();
    let pid = target.pid as i32;
    let mut reg = Registry::new();
    let mut ctl = reg.attach(pid, AttachMode::Seize, false).ok().unwrap();
    assert_eq!(ctl.state(), TraceeState::Running);
    assert_eq!(ctl.interrupt(), Ok(()));
    assert_eq!(ctl.state(), TraceeState::StopPending);
    assert!(matches!(ctl.wait(WaitMode::TraceStops), Ok(StopReason::Stopped(_))));
    assert_eq!(ctl.state(), TraceeState::Stopped);
    let snap = ctl.read_registers().ok().unwrap();
    assert_eq!(snap.len(), 27);
    assert_eq!(snap.value(16), Some(snap.instruction_pointer()));
    assert_eq!(reg.detach(&mut ctl), Ok(()));
    assert_eq!(ctl.state(), TraceeState::Detached);
    assert!(!reg.holds(pid));
    assert_eq!(ctl.step(), Err(TraceError::CapabilityRevoked));
    assert_eq!(reap(target.pid), WaitStatus::Exited(Pid::from_raw(pid), 0));
}

#[test]
fn missing_executable_fails_to_launch() {
    assert_eq!(preflight(PathKind::Missing), Ok(()));
    assert!(matches!(spawn("/does/not/exist", "x"), Err(TraceError::LaunchFailed(_))));
}

#[test]
fn killed_target_is_classified_and_exited() {
    let target = spawn("sleep", "5").unwrap();
    let pid = target.pid as i32;
    let mut reg = Registry::new();
    let mut ctl = reg.attach(pid, AttachMode::Seize, false).ok().unwrap();
    kill(Pid::from_raw(pid), Signal::SIGKILL).unwrap();
    assert_eq!(ctl.wait(WaitMode::General), Ok(StopReason::Signaled(9)));
    assert_eq!(ctl.state(), TraceeState::Exited);
    assert_eq!(ctl.step(), Err(TraceError::IllegalStateTransition));
    assert!(reg.release(&ctl));
    assert!(!reg.holds(pid));
}

#[test]
fn second_attach_is_already_traced() {
    let target = spawn("sleep", "2").unwrap();
    let pid = target.pid as i32;
    let mut reg = Registry::new();
    let mut first = reg.attach(pid, AttachMode::Seize, false).ok().unwrap();
    assert!(matches!(reg.attach(pid, AttachMode::Seize, false), Err(TraceError::AlreadyTraced)));
    assert!(matches!(reg.attach(pid, AttachMode::StopAttach, false), Err(TraceError::AlreadyTraced)));
    let mut other = Registry::new();
    assert!(matches!(other.attach(pid, AttachMode::Seize, true), Err(TraceError::AlreadyTraced)));
    assert!(!other.holds(pid));
    let mut log: Vec<Observation> = Vec::new();
    let failure = trace_session(&mut other, &target, true, 0, &mut log).unwrap_err();
    assert_eq!(failure.primary, TraceError::AlreadyTraced);
    assert_eq!(failure.cleanup, None);
    assert!(log.is_empty());
    assert_eq!(first.state(), TraceeState::Running);
    assert_eq!(first.interrupt(), Ok(()));
    assert!(matches!(first.wait(WaitMode::TraceStops), Ok(StopReason::Stopped(_))));
    assert_eq!(reg.detach(&mut first), Ok(()));
    assert_eq!(reap(target.pid), WaitStatus::Exited(Pid::from_raw(pid), 0));
}

#[test]
fn normal_exit_is_exit_code_zero() {
    let target = spawn("sleep", "1.3").unwrap();
    let mut reg = Registry::new();
    let mut ctl = reg.attach(target.pid as i32, AttachMode::Seize, false).ok().unwrap();
    assert_eq!(ctl.wait(WaitMode::General), Ok(StopReason::ExitedWithCode(0)));
    assert_eq!(ctl.state(), TraceeState::Exited);
}

#[test]
fn full_session_detaches_target() {
    let target = busy();
    let mut reg = Registry::new();
    let mut log: Vec<Observation> = Vec::new();
    assert_eq!(trace_session(&mut reg, &target, false, 0, &mut log), Ok(()));
    let stops = log.iter().filter(|o| matches!(o, Observation::Confirmed(StopReason::Stopped(_)))).count();
    let snaps = log.iter().filter(|o| matches!(o, Observation::Registers(_))).count();
    assert_eq!(stops, 3);
    assert_eq!(snaps, 2);
    assert!(!reg.holds(target.pid as i32));
    end(target.pid);
}

#[test]
fn session_on_gone_target_reports_failure() {
    let target = spawn("sleep", "5").unwrap();
    kill(Pid::from_raw(target.pid as i32), Signal::SIGKILL).unwrap();
    reap(target.pid);
    let mut reg = Registry::new();
    let mut log: Vec<Observation> = Vec::new();
    let failure = trace_session(&mut reg, &target, false, 0, &mut log).unwrap_err();
    assert_eq!(failure.primary, TraceError::NoSuchProcess);
    assert_eq!(failure.cleanup, None);
    assert!(log.is_empty());
}

#[test]
fn stop_attach_needs_a_wait_before_stopped() {
    let target = spawn("sleep", "2").unwrap();
    let pid = target.pid as i32;
    let mut reg = Registry::new();
    let mut ctl = reg.attach(pid, AttachMode::StopAttach, false).ok().unwrap();
    assert_eq!(ctl.state(), TraceeState::Running);
    assert_eq!(ctl.interrupt(), Err(TraceError::IllegalStateTransition));
    assert_eq!(ctl.wait(WaitMode::TraceStops), Ok(StopReason::Stopped(19)));
    assert_eq!(ctl.state(), TraceeState::Stopped);
    assert!(ctl.read_registers().is_ok());
    assert_eq!(reg.detach(&mut ctl), Ok(()));
    assert_eq!(reap(target.pid), WaitStatus::Exited(Pid::from_raw(pid), 0));
}

#[test]
fn running_target_refuses_step_and_registers() {
    let target = busy();
    let pid = target.pid as i32;
    let mut reg = Registry::new();
    let mut ctl = reg.attach(pid, AttachMode::Seize, false).ok().unwrap();
    assert_eq!(ctl.step(), Err(TraceError::IllegalStateTransition));
    assert_eq!(ctl.cont(), Err(TraceError::IllegalStateTransition));
    assert!(matches!(ctl.read_registers(), Err(TraceError::IllegalStateTransition)));
    assert_eq!(ctl.state(), TraceeState::Running);
    assert_eq!(ctl.interrupt(), Ok(()));
    assert_eq!(ctl.step(), Err(TraceError::IllegalStateTransition));
    assert_eq!(ctl.state(), TraceeState::StopPending);
    assert!(matches!(ctl.wait(WaitMode::TraceStops), Ok(StopReason::Stopped(_))));
    assert_eq!(ctl.step(), Ok(()));
    assert_eq!(ctl.state(), TraceeState::StopPending);
    assert_eq!(ctl.wait(WaitMode::TraceStops), Ok(StopReason::Stopped(5)));
    assert_eq!(reg.detach(&mut ctl), Ok(()));
    end(target.pid);
}

#[test]
fn session_on_held_target_is_already_traced() {
    let target = spawn("sleep", "2").unwrap();
    let pid = target.pid as i32;
    let mut reg = Registry::new();
    let mut first = reg.attach(pid, AttachMode::Seize, false).ok().unwrap();
    let mut log: Vec<Observation> = Vec::new();
    let failure = trace_session(&mut reg, &target, false, 0, &mut log).unwrap_err();
    assert_eq!(failure.primary, TraceError::AlreadyTraced);
    assert!(reg.holds(pid));
    assert!(log.is_empty());
    assert_eq!(first.interrupt(), Ok(()));
    assert!(matches!(first.wait(WaitMode::TraceStops), Ok(StopReason::Stopped(_))));
    assert_eq!(reg.detach(&mut first), Ok(()));
    assert_eq!(reap(target.pid), WaitStatus::Exited(Pid::from_raw(pid), 0));
}

#[test]
fn zero_pid_session_is_no_such_process() {
    let target = spawned(Ok(0), vec![]).ok().unwrap();
    let mut reg = Registry::new();
    let mut log: Vec<Observation> = Vec::new();
    let failure = trace_session(&mut reg, &target, false, 0, &mut log).unwrap_err();
    assert_eq!(failure.primary, TraceError::NoSuchProcess);
    assert_eq!(failure.cleanup, None);
    assert!(log.is_empty());
}
