use crate::status::Termination;
use nix::errno::Errno;
use nix::sys::wait::{waitpid, WaitPidFlag, WaitStatus};
use nix::unistd::Pid;
use vstd::prelude::*;

verus! {

/// One answer of the non-blocking wait for any descendant.
#[derive(Clone, Copy, Debug, PartialEq, Eq, Structural)]
pub enum WaitOutcome {
    /// A descendant ended and has now been reaped.
    Terminated { pid: i32, how: Termination },
    /// A descendant was stopped, continued or traced: not an end.
    Changed,
    /// Descendants exist, but none has a state change pending.
    StillAlive,
    /// No descendant is left at all.
    NoChildren,
}

/// Whether a sweep goes on after this answer: it stops only where the wait
/// reports nothing pending or no descendant at all.
pub open spec fn keeps_sweeping(o: WaitOutcome) -> bool {
    match o {
        WaitOutcome::StillAlive | WaitOutcome::NoChildren => false,
        _ => true,
    }
}

/// Relies on nix::sys::wait::waitpid for any child (pid -1) with WNOHANG: it
/// collects at most one descendant whose state changed, without blocking.
/// nix turns a return of 0 into `StillAlive` and a negative one into an error,
/// so a reported process has a positive pid. ECHILD means no child exists.
#[verifier::external_body]
pub(crate) fn wait_any_nohang() -> (r: Result<WaitOutcome, i32>)
    ensures
        r matches Ok(WaitOutcome::Terminated { pid, .. }) ==> pid > 0,
{
    match waitpid(Pid::from_raw(-1), Some(WaitPidFlag::WNOHANG)) {
        Ok(WaitStatus::Exited(p, c)) => Ok(WaitOutcome::Terminated { pid: p.as_raw(), how: Termination::Exited(c as u8) }),
        Ok(WaitStatus::Signaled(p, s, _)) => Ok(WaitOutcome::Terminated { pid: p.as_raw(), how: Termination::Signaled(s as u8) }),
        Ok(WaitStatus::StillAlive) => Ok(WaitOutcome::StillAlive),
        Ok(_) => Ok(WaitOutcome::Changed),
        Err(Errno::ECHILD) => Ok(WaitOutcome::NoChildren),
        Err(e) => Err(e as i32),
    }
}

} // verus!
