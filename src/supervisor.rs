use crate::reaper::{keeps_sweeping, wait_any_nohang, WaitOutcome};
use crate::signal::{is_forwarded_spec, signal_group, signal_number_spec, RelayableSignal};
use crate::status::{exit_status_of, exit_status_spec};
use vstd::prelude::*;

verus! {

/// Where a run stands once the foreground command has been launched.
#[derive(Clone, Copy, Debug, PartialEq, Eq, Structural)]
pub enum Phase {
    /// The foreground command has not been reaped yet.
    Supervising,
    /// The foreground command was reaped; the run ends with this status.
    Terminating(i32),
}

/// What to do about a signal that arrived.
#[derive(Clone, Copy, Debug, PartialEq, Eq, Structural)]
pub enum SignalAction {
    /// Run a reap sweep.
    Sweep,
    /// Send signal `signo` to every member of process group `group`.
    Forward { group: i32, signo: i32 },
    /// Nothing: the run is already ending.
    Ignore,
}

/// The wait primitive failed for a reason other than "no children": the
/// process table can no longer be trusted and the run must abort.
#[derive(Clone, Copy, Debug, PartialEq, Eq, Structural)]
pub struct ReapFailure {
    pub errno: i32,
}

/// The phase after the sweep reported `o`. Only the end of the foreground
/// process moves a supervising run on; a terminating run stays as it is.
pub open spec fn next_phase(foreground: i32, phase: Phase, o: WaitOutcome) -> Phase {
    match phase {
        Phase::Terminating(s) => Phase::Terminating(s),
        Phase::Supervising => match o {
            WaitOutcome::Terminated { pid, how } => if pid == foreground {
                Phase::Terminating(exit_status_spec(how) as i32)
            } else {
                Phase::Supervising
            },
            _ => Phase::Supervising,
        },
    }
}

/// The answer to signal `sig` in `phase`: a child-state change starts a
/// sweep, any other signal goes to the foreground process group, and once
/// the run is ending nothing new is started.
pub open spec fn signal_action_spec(foreground: i32, phase: Phase, sig: RelayableSignal) -> SignalAction {
    match phase {
        Phase::Terminating(_) => SignalAction::Ignore,
        Phase::Supervising => if is_forwarded_spec(sig) {
            SignalAction::Forward { group: foreground, signo: signal_number_spec(sig) }
        } else {
            SignalAction::Sweep
        },
    }
}

/// The state of one run: the foreground process, fixed at launch, and the phase.
pub struct Supervisor {
    foreground: i32,
    phase: Phase,
}

impl Supervisor {
    /// The process id of the foreground command.
    pub closed spec fn foreground_spec(&self) -> i32 {
        self.foreground
    }

    pub closed spec fn phase_spec(&self) -> Phase {
        self.phase
    }

    pub open spec fn wf(&self) -> bool {
        self.foreground_spec() > 0
    }

    /// Starts supervising the foreground command that was launched as `foreground`.
    pub fn new(foreground: i32) -> (r: Supervisor)
        requires
            foreground > 0,
        ensures
            r.wf(),
            r.foreground_spec() == foreground,
            r.phase_spec() == Phase::Supervising,
    {
        Supervisor { foreground, phase: Phase::Supervising }
    }

    pub fn foreground(&self) -> (r: i32)
        ensures
            r == self.foreground_spec(),
    {
        self.foreground
    }

    pub fn phase(&self) -> (r: Phase)
        ensures
            r == self.phase_spec(),
    {
        self.phase
    }

    /// The status the run ends with, once the foreground command was reaped.
    pub fn exit_status(&self) -> (r: Option<i32>)
        ensures
            r == match self.phase_spec() {
                Phase::Terminating(s) => Some(s),
                Phase::Supervising => None::<i32>,
            },
    {
        match self.phase {
            Phase::Terminating(s) => Some(s),
            Phase::Supervising => None,
        }
    }

    /// Takes in one answer of the wait primitive. Returns whether the sweep
    /// must go on: after any reaped or changed descendant, whoever it is.
    pub fn observe(&mut self, o: WaitOutcome) -> (more: bool)
        ensures
            final(self).foreground_spec() == old(self).foreground_spec(),
            final(self).phase_spec() == next_phase(old(self).foreground_spec(), old(self).phase_spec(), o),
            more == keeps_sweeping(o),
    {
        if let Phase::Supervising = self.phase {
            if let WaitOutcome::Terminated { pid, how } = o {
                if pid == self.foreground {
                    self.phase = Phase::Terminating(exit_status_of(how));
                }
            }
        }
        match o {
            WaitOutcome::StillAlive | WaitOutcome::NoChildren => false,
            _ => true,
        }
    }

    /// One step of a reap sweep: collects at most one terminated descendant
    /// and takes it in. `Ok(true)` asks for the next step; `Ok(false)` means
    /// that nothing is pending. A failing wait leaves the state untouched.
    pub fn sweep_step(&mut self) -> (r: Result<bool, ReapFailure>)
        ensures
            final(self).foreground_spec() == old(self).foreground_spec(),
            match r {
                Ok(more) => exists|o: WaitOutcome|
                    final(self).phase_spec() == next_phase(old(self).foreground_spec(), old(self).phase_spec(), o)
                        && more == keeps_sweeping(o),
                Err(_) => final(self).phase_spec() == old(self).phase_spec(),
            },
    {
        match wait_any_nohang() {
            Ok(o) => Ok(self.observe(o)),
            Err(errno) => Err(ReapFailure { errno }),
        }
    }

    /// Decides what a signal that arrived calls for.
    pub fn signal_action(&self, sig: RelayableSignal) -> (r: SignalAction)
        ensures
            r == signal_action_spec(self.foreground_spec(), self.phase_spec(), sig),
    {
        match self.phase {
            Phase::Terminating(_) => SignalAction::Ignore,
            Phase::Supervising => if sig.is_forwarded() {
                SignalAction::Forward { group: self.foreground, signo: sig.number() }
            } else {
                SignalAction::Sweep
            },
        }
    }

    /// Handles a signal that arrived: forwards it to the foreground process
    /// group where that is called for, and returns what was decided. A group
    /// that is already gone is no error. The state is not touched.
    pub fn relay(&self, sig: RelayableSignal) -> (r: SignalAction)
        ensures
            r == signal_action_spec(self.foreground_spec(), self.phase_spec(), sig),
    {
        let action = self.signal_action(sig);
        if let SignalAction::Forward { group, signo } = action {
            let _delivered = signal_group(group, signo);
        }
        action
    }
}

/// Something the supervisor is handed while it runs: a signal, or an answer
/// of the wait primitive during a sweep.
#[derive(Clone, Copy, Debug, PartialEq, Eq, Structural)]
pub enum Event {
    Signal(RelayableSignal),
    Wait(WaitOutcome),
}

/// The phase after `e`. Signals never change it (`relay` takes the state by
/// shared reference); wait answers change it as `observe` does.
pub open spec fn after_event(foreground: i32, phase: Phase, e: Event) -> Phase {
    match e {
        Event::Signal(_) => phase,
        Event::Wait(o) => next_phase(foreground, phase, o),
    }
}

/// The phase after the events of `es`, in order.
pub open spec fn after_events(foreground: i32, phase: Phase, es: Seq<Event>) -> Phase
    decreases es.len(),
{
    if es.len() == 0 {
        phase
    } else {
        after_events(foreground, after_event(foreground, phase, es[0]), es.drop_first())
    }
}

/// Whether `e` reports that the foreground process ended.
pub open spec fn ends_foreground(foreground: i32, e: Event) -> bool {
    e matches Event::Wait(WaitOutcome::Terminated { pid, .. }) && pid == foreground
}

/// The status carried by an event that reports an end.
pub open spec fn event_status(e: Event) -> i32 {
    match e {
        Event::Wait(WaitOutcome::Terminated { how, .. }) => exit_status_spec(how) as i32,
        _ => 0,
    }
}

/// Once the run is terminating, no signal and no further reap changes the
/// status it ends with.
pub proof fn terminating_is_absorbing(foreground: i32, status: i32, es: Seq<Event>)
    ensures
        after_events(foreground, Phase::Terminating(status), es) == Phase::Terminating(status),
    decreases es.len(),
{
    if es.len() > 0 {
        terminating_is_absorbing(foreground, status, es.drop_first());
    }
}

/// A run in which the foreground process is never reported ended stays
/// supervising, however many orphans are reaped and signals arrive.
pub proof fn only_the_foreground_ends_the_run(foreground: i32, es: Seq<Event>)
    requires
        forall|j: int| 0 <= j < es.len() ==> !ends_foreground(foreground, #[trigger] es[j]),
    ensures
        after_events(foreground, Phase::Supervising, es) == Phase::Supervising,
    decreases es.len(),
{
    if es.len() > 0 {
        assert(!ends_foreground(foreground, es[0]));
        let rest = es.drop_first();
        assert forall|j: int| 0 <= j < rest.len() implies !ends_foreground(foreground, #[trigger] rest[j]) by {
            assert(rest[j] == es[j + 1]);
        }
        only_the_foreground_ends_the_run(foreground, rest);
    }
}

/// The first event that reports the foreground process ended decides the
/// run's status, and no later event changes it.
pub proof fn first_foreground_end_decides(foreground: i32, es: Seq<Event>, i: int)
    requires
        0 <= i < es.len(),
        ends_foreground(foreground, es[i]),
        forall|j: int| 0 <= j < i ==> !ends_foreground(foreground, #[trigger] es[j]),
    ensures
        after_events(foreground, Phase::Supervising, es) == Phase::Terminating(event_status(es[i])),
    decreases es.len(),
{
    let rest = es.drop_first();
    if i == 0 {
        terminating_is_absorbing(foreground, event_status(es[0]), rest);
    } else {
        assert(!ends_foreground(foreground, es[0]));
        assert(rest[i - 1] == es[i]);
        assert forall|j: int| 0 <= j < i - 1 implies !ends_foreground(foreground, #[trigger] rest[j]) by {
            assert(rest[j] == es[j + 1]);
        }
        first_foreground_end_decides(foreground, rest, i - 1);
    }
}

/// A sweep goes on after every reaped descendant, foreground or adopted
/// orphan alike, and stops only when the wait reports nothing pending or no
/// descendant left. Reaping an orphan does not change the phase.
pub proof fn sweep_drains_every_descendant(foreground: i32, phase: Phase, o: WaitOutcome)
    ensures
        keeps_sweeping(o) <==> !(o == WaitOutcome::StillAlive || o == WaitOutcome::NoChildren),
        o matches WaitOutcome::Terminated { pid, .. } ==> keeps_sweeping(o),
        o matches WaitOutcome::Terminated { pid, .. } && pid != foreground ==> next_phase(foreground, phase, o) == phase,
{
}

/// While the run is supervising, every signal of the set but the
/// child-state change goes, unchanged, to the whole foreground process group.
pub proof fn forwarding_targets_the_group(foreground: i32, sig: RelayableSignal)
    requires
        is_forwarded_spec(sig),
    ensures
        signal_action_spec(foreground, Phase::Supervising, sig) == (SignalAction::Forward {
            group: foreground,
            signo: signal_number_spec(sig),
        }),
{
}

/// A signal that arrives after the foreground status was derived starts
/// nothing and leaves that status as it was.
pub proof fn late_signal_changes_nothing(foreground: i32, status: i32, sig: RelayableSignal)
    ensures
        signal_action_spec(foreground, Phase::Terminating(status), sig) == SignalAction::Ignore,
        after_event(foreground, Phase::Terminating(status), Event::Signal(sig)) == Phase::Terminating(status),
{
}

} // verus!
