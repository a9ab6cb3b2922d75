use vstd::prelude::*;

use crate::model::TraceError;

verus! {

/// What the file system says of the path to launch.
#[derive(Clone, Copy, Debug, PartialEq, Eq, Structural)]
pub enum PathKind {
    /// Nothing exists at the path.
    Missing,
    /// Something exists, but it is not a regular file.
    NotRegularFile,
    /// A regular file without execute permission.
    NotExecutable,
    /// An executable regular file.
    Executable,
}

/// Permission bits that allow execution by owner, group or others.
pub const EXEC_BITS: u32 = 0o111;

/// What a path is, from whether something exists there, whether it is a
/// regular file, and its permission bits.
pub fn classify_path(exists: bool, regular: bool, mode: u32) -> (r: PathKind)
    ensures
        r == (if !exists {
            PathKind::Missing
        } else if !regular {
            PathKind::NotRegularFile
        } else if mode & EXEC_BITS == 0 {
            PathKind::NotExecutable
        } else {
            PathKind::Executable
        }),
{
    if !exists {
        PathKind::Missing
    } else if !regular {
        PathKind::NotRegularFile
    } else if mode & EXEC_BITS == 0 {
        PathKind::NotExecutable
    } else {
        PathKind::Executable
    }
}

/// A launched process that may be traced: its identifier and its arguments.
pub struct TargetProcess {
    pub pid: u32,
    pub args: Vec<String>,
}

/// The check made before any spawn: an existing path must be an executable
/// regular file. A missing path is left to the spawn, which reports it as a
/// launch failure.
pub fn preflight(kind: PathKind) -> (r: Result<(), TraceError>)
    ensures
        r == (match kind {
            PathKind::NotRegularFile | PathKind::NotExecutable => Err(TraceError::InvalidTarget),
            _ => Ok::<(), TraceError>(()),
        }),
{
    match kind {
        PathKind::NotRegularFile | PathKind::NotExecutable => Err(TraceError::InvalidTarget),
        _ => Ok(()),
    }
}

/// Turns the outcome of a spawn (the new process identifier, or the error
/// number) into a target or a `LaunchFailed`.
pub fn spawned(outcome: Result<u32, i32>, args: Vec<String>) -> (r: Result<TargetProcess, TraceError>)
    ensures
        outcome matches Err(errno) ==> r == Err::<TargetProcess, TraceError>(TraceError::LaunchFailed(errno)),
        outcome matches Ok(id) ==> r matches Ok(t) && t.pid == id && t.args@ == args@,
{
    match outcome {
        Ok(pid) => Ok(TargetProcess { pid, args }),
        Err(errno) => Err(TraceError::LaunchFailed(errno)),
    }
}

} // verus!
