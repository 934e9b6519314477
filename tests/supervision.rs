use pid1_init::reaper::WaitOutcome;
use pid1_init::signal::RelayableSignal;
use pid1_init::status::{exit_status_of, Termination};
use pid1_init::supervisor::{Phase, SignalAction, Supervisor};

const ALL_SIGNALS: [RelayableSignal; 11] = [
    RelayableSignal::Terminate,
    RelayableSignal::Alarm,
    RelayableSignal::Hangup,
    RelayableSignal::Interrupt,
    RelayableSignal::Io,
    RelayableSignal::BrokenPipe,
    RelayableSignal::Quit,
    RelayableSignal::UserDefined1,
    RelayableSignal::UserDefined2,
    RelayableSignal::WindowChanged,
    RelayableSignal::ChildStateChanged,
];

fn ended(pid: i32, how: Termination) -> WaitOutcome {
    WaitOutcome::Terminated { pid, how }
}

#[test]
fn normal_exit_keeps_its_code() {
    assert_eq!(exit_status_of(Termination::Exited(42)), 42);
    assert_eq!(exit_status_of(Termination::Exited(0)), 0);
    assert_eq!(exit_status_of(Termination::Exited(255)), 255);
}

#[test]
fn kill_by_signal_maps_above_128() {
    assert_eq!(exit_status_of(Termination::Signaled(9)), 137);
    assert_eq!(exit_status_of(Termination::Signaled(15)), 143);
    assert_eq!(exit_status_of(Termination::Signaled(2)), 130);
}

#[test]
fn signal_numbers_follow_linux() {
    assert_eq!(RelayableSignal::Hangup.number(), 1);
    assert_eq!(RelayableSignal::Interrupt.number(), 2);
    assert_eq!(RelayableSignal::Quit.number(), 3);
    assert_eq!(RelayableSignal::UserDefined1.number(), 10);
    assert_eq!(RelayableSignal::UserDefined2.number(), 12);
    assert_eq!(RelayableSignal::BrokenPipe.number(), 13);
    assert_eq!(RelayableSignal::Alarm.number(), 14);
    assert_eq!(RelayableSignal::Terminate.number(), 15);
    assert_eq!(RelayableSignal::ChildStateChanged.number(), 17);
    assert_eq!(RelayableSignal::WindowChanged.number(), 28);
    assert_eq!(RelayableSignal::Io.number(), 29);
}

#[test]
fn only_child_state_change_is_kept_back() {
    for sig in ALL_SIGNALS {
        assert_eq!(sig.is_forwarded(), sig != RelayableSignal::ChildStateChanged);
    }
}

#[test]
fn new_supervisor_is_supervising() {
    let s = Supervisor::new(12);
    assert_eq!(s.foreground(), 12);
    assert_eq!(s.phase(), Phase::Supervising);
    assert_eq!(s.exit_status(), None);
}

#[test]
fn foreground_exit_code_becomes_status() {
    let mut s = Supervisor::new(12);
    assert!(s.observe(ended(12, Termination::Exited(42))));
    assert_eq!(s.exit_status(), Some(42));
    assert_eq!(s.phase(), Phase::Terminating(42));
}

#[test]
fn foreground_killed_by_kill_signal_gives_137() {
    let mut s = Supervisor::new(12);
    assert!(s.observe(ended(12, Termination::Signaled(9))));
    assert_eq!(s.exit_status(), Some(137));
}

#[test]
fn orphans_are_reaped_without_ending_the_run() {
    let mut s = Supervisor::new(12);
    assert!(s.observe(ended(40, Termination::Exited(1))));
    assert!(s.observe(ended(41, Termination::Signaled(15))));
    assert!(s.observe(WaitOutcome::Changed));
    assert_eq!(s.exit_status(), None);
    assert!(!s.observe(WaitOutcome::StillAlive));
    assert_eq!(s.phase(), Phase::Supervising);
}

#[test]
fn sweep_stops_only_when_nothing_is_pending() {
    let mut s = Supervisor::new(12);
    assert!(!s.observe(WaitOutcome::StillAlive));
    assert!(!s.observe(WaitOutcome::NoChildren));
    assert!(s.observe(WaitOutcome::Changed));
    assert!(s.observe(ended(13, Termination::Exited(0))));
}

#[test]
fn first_foreground_end_is_final() {
    let mut s = Supervisor::new(12);
    s.observe(ended(30, Termination::Exited(7)));
    s.observe(ended(12, Termination::Exited(3)));
    s.observe(ended(12, Termination::Signaled(9)));
    s.observe(ended(31, Termination::Exited(9)));
    assert_eq!(s.exit_status(), Some(3));
}

#[test]
fn draining_continues_after_the_foreground_end() {
    let mut s = Supervisor::new(12);
    assert!(s.observe(ended(12, Termination::Exited(5))));
    assert!(s.observe(ended(50, Termination::Exited(0))));
    assert!(!s.observe(WaitOutcome::NoChildren));
    assert_eq!(s.exit_status(), Some(5));
}

#[test]
fn supervising_forwards_to_the_group() {
    let s = Supervisor::new(12);
    assert_eq!(
        s.signal_action(RelayableSignal::Interrupt),
        SignalAction::Forward { group: 12, signo: 2 }
    );
    assert_eq!(
        s.signal_action(RelayableSignal::Terminate),
        SignalAction::Forward { group: 12, signo: 15 }
    );
    assert_eq!(s.signal_action(RelayableSignal::ChildStateChanged), SignalAction::Sweep);
}

#[test]
fn late_signals_are_ignored() {
    let mut s = Supervisor::new(12);
    s.observe(ended(12, Termination::Exited(42)));
    for sig in ALL_SIGNALS {
        assert_eq!(s.relay(sig), SignalAction::Ignore);
    }
    assert_eq!(s.exit_status(), Some(42));
}

#[test]
fn forwarding_to_a_vanished_group_is_harmless() {
    // No process group can have this id: it is above the kernel's pid limit.
    let s = Supervisor::new(i32::MAX);
    assert_eq!(
        s.relay(RelayableSignal::Interrupt),
        SignalAction::Forward { group: i32::MAX, signo: 2 }
    );
    assert_eq!(s.relay(RelayableSignal::ChildStateChanged), SignalAction::Sweep);
    assert_eq!(s.exit_status(), None);
}

#[test]
fn sweep_without_children_stops_at_once() {
    let mut s = Supervisor::new(i32::MAX);
    assert_eq!(s.sweep_step(), Ok(false));
    assert_eq!(s.phase(), Phase::Supervising);
}
