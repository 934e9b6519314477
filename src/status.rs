use vstd::prelude::*;

verus! {

/// How a descendant process came to its end, as the wait primitive reports it.
#[derive(Clone, Copy, Debug, PartialEq, Eq, Structural)]
pub enum Termination {
    /// The process called `exit` with this code (the low eight bits).
    Exited(u8),
    /// The process was killed by the signal with this number.
    Signaled(u8),
}

/// The status this program ends with when the foreground command ended as `t`:
/// its own code after a normal exit, `128 + N` after a kill by signal `N`.
pub open spec fn exit_status_spec(t: Termination) -> int {
    match t {
        Termination::Exited(code) => code as int,
        Termination::Signaled(signo) => 128 + signo,
    }
}

/// Derives the exit status of the whole run from the foreground command's termination.
pub fn exit_status_of(t: Termination) -> (r: i32)
    ensures
        r as int == exit_status_spec(t),
        0 <= r < 384,
{
    match t {
        Termination::Exited(code) => code as i32,
        Termination::Signaled(signo) => 128 + signo as i32,
    }
}

} // verus!
