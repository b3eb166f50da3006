//! Decision logic of the supervision loop: signal handling, reap decisions,
//! exit-code propagation.

use pid1::decide_reap;
use pid1::handle_signal;
use pid1::ReapDecision;
use pid1::ShutdownLatch;
use pid1::SignalAction;
use pid1::SignalKind;
use pid1::WaitEvent;

#[test]
fn termination_signal_triggers_escalation_once() {
    let (latch, action) = handle_signal(ShutdownLatch::NotTriggered, SignalKind::Terminate);
    assert_eq!(latch, ShutdownLatch::Triggered);
    assert_eq!(action, SignalAction::StartEscalation(SignalKind::Terminate));

    // A second request of any termination kind is ignored: the latch is
    // already set, so at most one escalation ever runs.
    let (latch, action) = handle_signal(latch, SignalKind::Interrupt);
    assert_eq!(latch, ShutdownLatch::Triggered);
    assert_eq!(action, SignalAction::Continue);

    let (latch, action) = handle_signal(latch, SignalKind::Terminate);
    assert_eq!(latch, ShutdownLatch::Triggered);
    assert_eq!(action, SignalAction::Continue);
}

#[test]
fn interrupt_signal_forwards_interrupt() {
    let (latch, action) = handle_signal(ShutdownLatch::NotTriggered, SignalKind::Interrupt);
    assert_eq!(latch, ShutdownLatch::Triggered);
    assert_eq!(action, SignalAction::StartEscalation(SignalKind::Interrupt));
}

#[test]
fn child_exit_signal_drains_and_keeps_latch() {
    let (latch, action) = handle_signal(ShutdownLatch::NotTriggered, SignalKind::ChildExited);
    assert_eq!(latch, ShutdownLatch::NotTriggered);
    assert_eq!(action, SignalAction::DrainZombies);

    let (latch, action) = handle_signal(ShutdownLatch::Triggered, SignalKind::ChildExited);
    assert_eq!(latch, ShutdownLatch::Triggered);
    assert_eq!(action, SignalAction::DrainZombies);
}

#[test]
fn primary_child_exit_code_is_propagated() {
    // A workload that exits with code N has the supervisor exit with N.
    let decision = decide_reap(7, &WaitEvent::Exited { pid: 7, code: 42 });
    assert_eq!(decision, ReapDecision::ExitSupervisor(42));

    let decision = decide_reap(7, &WaitEvent::Exited { pid: 7, code: 0 });
    assert_eq!(decision, ReapDecision::ExitSupervisor(0));

    let decision = decide_reap(7, &WaitEvent::Exited { pid: 7, code: 255 });
    assert_eq!(decision, ReapDecision::ExitSupervisor(255));
}

#[test]
fn primary_child_signal_death_maps_to_128_plus_signal() {
    // Killed by signal 12: exit code is 140 (128 + 12).
    let decision = decide_reap(7, &WaitEvent::Signaled { pid: 7, signal: 12 });
    assert_eq!(decision, ReapDecision::ExitSupervisor(140));

    // Killed by SIGKILL (9): exit code is 137 (128 + 9).
    let decision = decide_reap(7, &WaitEvent::Signaled { pid: 7, signal: 9 });
    assert_eq!(decision, ReapDecision::ExitSupervisor(137));

    // Killed by SIGTERM (15): exit code is 143 (128 + 15).
    let decision = decide_reap(7, &WaitEvent::Signaled { pid: 7, signal: 15 });
    assert_eq!(decision, ReapDecision::ExitSupervisor(143));
}

#[test]
fn orphan_reaps_do_not_terminate_the_supervisor() {
    let decision = decide_reap(7, &WaitEvent::Exited { pid: 8, code: 0 });
    assert_eq!(decision, ReapDecision::ReapedOrphan(8));

    let decision = decide_reap(7, &WaitEvent::Signaled { pid: 9, signal: 9 });
    assert_eq!(decision, ReapDecision::ReapedOrphan(9));
}

#[test]
fn non_exit_reports_are_ignored() {
    let decision = decide_reap(7, &WaitEvent::NoExit);
    assert_eq!(decision, ReapDecision::NoChange);
}

/// Walk a sequence of reports the way the drain loop does: the first
/// terminal report for the primary child decides the exit status, whatever
/// comes before or after it.
#[test]
fn first_primary_reap_decides_exit_status() {
    let child = 5;
    let events = vec![
        WaitEvent::Exited { pid: 9, code: 1 },
        WaitEvent::NoExit,
        WaitEvent::Exited { pid: child, code: 7 },
        WaitEvent::Signaled { pid: child, signal: 9 },
    ];
    let mut decided: Option<i32> = None;
    for ev in &events {
        if let ReapDecision::ExitSupervisor(code) = decide_reap(child, ev) {
            if decided.is_none() {
                decided = Some(code);
            }
        }
    }
    assert_eq!(decided, Some(7));
}

/// A run in which the primary child never appears decides no exit at all,
/// however many orphans are reaped.
#[test]
fn orphan_only_runs_decide_no_exit() {
    let child = 5;
    let events = vec![
        WaitEvent::Exited { pid: 9, code: 0 },
        WaitEvent::Signaled { pid: 11, signal: 15 },
        WaitEvent::Exited { pid: 12, code: 3 },
    ];
    let mut decided: Option<i32> = None;
    for ev in &events {
        match decide_reap(child, ev) {
            ReapDecision::ExitSupervisor(code) => decided = Some(code),
            ReapDecision::ReapedOrphan(_) => {}
            ReapDecision::NoChange => {}
        }
    }
    assert_eq!(decided, None);
}
