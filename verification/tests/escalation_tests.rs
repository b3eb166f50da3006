//! The graceful-shutdown escalation sequence.

use pid1::escalation_steps;
use pid1::run_escalation;
use pid1::EscalationStep;
use pid1::Pid1Settings;
use pid1::ShutdownSignal;
use pid1::SignalKind;

#[test]
fn termination_escalates_to_kill_after_timeouts() {
    // A termination request is forwarded, then after the timeout the
    // workload is force-killed: terminate, wait 2s, kill.
    let steps = escalation_steps(SignalKind::Terminate, 2);
    assert_eq!(
        steps,
        vec![
            EscalationStep { signal: ShutdownSignal::Terminate, pause_secs: 2 },
            EscalationStep { signal: ShutdownSignal::Kill, pause_secs: 0 },
        ]
    );
}

#[test]
fn interrupt_is_forwarded_before_escalating() {
    let steps = escalation_steps(SignalKind::Interrupt, 2);
    assert_eq!(
        steps,
        vec![
            EscalationStep { signal: ShutdownSignal::Interrupt, pause_secs: 2 },
            EscalationStep { signal: ShutdownSignal::Terminate, pause_secs: 2 },
            EscalationStep { signal: ShutdownSignal::Kill, pause_secs: 0 },
        ]
    );
}

#[test]
fn configured_timeout_paces_every_pause() {
    let steps = escalation_steps(SignalKind::Interrupt, 7);
    assert_eq!(steps.len(), 3);
    assert_eq!(steps[0].pause_secs, 7);
    assert_eq!(steps[1].pause_secs, 7);
    assert_eq!(steps[2].pause_secs, 0);

    let steps = escalation_steps(SignalKind::Terminate, 0);
    assert_eq!(steps.len(), 2);
    assert_eq!(steps[0].pause_secs, 0);
}

#[test]
fn escalation_tolerates_missing_target() {
    // Sends to a process id that cannot exist fail, and failure never
    // aborts the sequence: the full plan is still walked.
    let settings = Pid1Settings::new().timeout(0);
    let performed = run_escalation(settings, SignalKind::Interrupt, i32::MAX);
    assert_eq!(performed, escalation_steps(SignalKind::Interrupt, 0));

    let performed = run_escalation(settings, SignalKind::Terminate, i32::MAX);
    assert_eq!(performed, escalation_steps(SignalKind::Terminate, 0));
}
