use nix::sys::signal::{killpg, Signal};
use nix::unistd::Pid;
use vstd::prelude::*;

verus! {

/// The signals this program subscribes to. All of them but
/// `ChildStateChanged` are handed on to the foreground process group;
/// `ChildStateChanged` only starts a reap sweep.
#[derive(Clone, Copy, Debug, PartialEq, Eq, Structural)]
pub enum RelayableSignal {
    Terminate,
    Alarm,
    Hangup,
    Interrupt,
    Io,
    BrokenPipe,
    Quit,
    UserDefined1,
    UserDefined2,
    WindowChanged,
    ChildStateChanged,
}

/// The Linux number of each signal of the set.
pub open spec fn signal_number_spec(s: RelayableSignal) -> i32 {
    match s {
        RelayableSignal::Hangup => 1,
        RelayableSignal::Interrupt => 2,
        RelayableSignal::Quit => 3,
        RelayableSignal::UserDefined1 => 10,
        RelayableSignal::UserDefined2 => 12,
        RelayableSignal::BrokenPipe => 13,
        RelayableSignal::Alarm => 14,
        RelayableSignal::Terminate => 15,
        RelayableSignal::ChildStateChanged => 17,
        RelayableSignal::WindowChanged => 28,
        RelayableSignal::Io => 29,
    }
}

/// Whether a signal is handed on to the foreground process group.
pub open spec fn is_forwarded_spec(s: RelayableSignal) -> bool {
    s != RelayableSignal::ChildStateChanged
}

impl RelayableSignal {
    /// The signal's number on Linux.
    pub fn number(self) -> (r: i32)
        ensures
            r == signal_number_spec(self),
    {
        match self {
            RelayableSignal::Hangup => 1,
            RelayableSignal::Interrupt => 2,
            RelayableSignal::Quit => 3,
            RelayableSignal::UserDefined1 => 10,
            RelayableSignal::UserDefined2 => 12,
            RelayableSignal::BrokenPipe => 13,
            RelayableSignal::Alarm => 14,
            RelayableSignal::Terminate => 15,
            RelayableSignal::ChildStateChanged => 17,
            RelayableSignal::WindowChanged => 28,
            RelayableSignal::Io => 29,
        }
    }

    /// True for every signal of the set but `ChildStateChanged`.
    pub fn is_forwarded(self) -> (r: bool)
        ensures
            r == is_forwarded_spec(self),
    {
        !matches!(self, RelayableSignal::ChildStateChanged)
    }
}

/// Relies on nix::sys::signal::killpg: sends the signal numbered `signo` to
/// every member of process group `pgrp`. False where the number names no
/// signal nix knows or the kernel refuses (the group is already gone).
#[verifier::external_body]
pub(crate) fn signal_group(pgrp: i32, signo: i32) -> (r: bool) {
    match Signal::try_from(signo) {
        Ok(sig) => killpg(Pid::from_raw(pgrp), sig).is_ok(),
        Err(_) => false,
    }
}

} // verus!
