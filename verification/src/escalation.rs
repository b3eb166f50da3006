//! The graceful-shutdown escalation: request, then force, then kill.
//!
//! Once a termination or interrupt request reaches the supervisor, the
//! workload is given a chance to shut down cleanly before being forcibly
//! killed: the original request is forwarded, and progressively stronger
//! signals follow after a fixed pause each. The exact sequence of sends and
//! pauses is a pure function of the original request and the configured
//! timeout, stated and proved here; the runner walks that plan, and every
//! send is best effort — a target that is already gone never aborts the
//! sequence.

use vstd::prelude::*;

use crate::reaper::SignalKind;
use crate::settings::Pid1Settings;
use crate::sys::log_send_failed;
use crate::sys::send_signal;
use crate::sys::sleep_once;

verus! {

/// A signal the escalation sends to the workload, in increasing strength.
#[derive(Debug, Clone, Copy, PartialEq, Eq, Structural)]
pub enum ShutdownSignal {
    /// An interactive interrupt request (SIGINT), forwarded first when the
    /// supervisor itself was interrupted.
    Interrupt,
    /// A termination request (SIGTERM).
    Terminate,
    /// The unconditional kill (SIGKILL); nothing follows it.
    Kill,
}

/// One step of the escalation: send `signal`, then pause `pause_secs`
/// seconds before the next step.
#[derive(Debug, Clone, Copy, PartialEq, Eq, Structural)]
pub struct EscalationStep {
    /// The signal this step sends to the workload.
    pub signal: ShutdownSignal,
    /// The pause, in seconds, between this send and the next step.
    pub pause_secs: u32,
}

/// The full escalation sequence for one original request: an interrupt is
/// forwarded as an interrupt first; then, unconditionally, a termination
/// request and finally the kill, each preceding send followed by the
/// configured pause. Nothing follows the kill, so its pause is zero.
pub open spec fn escalation_plan(original: SignalKind, timeout_secs: u32) -> Seq<EscalationStep> {
    let tail = seq![
        EscalationStep { signal: ShutdownSignal::Terminate, pause_secs: timeout_secs },
        EscalationStep { signal: ShutdownSignal::Kill, pause_secs: 0 },
    ];
    if original is Interrupt {
        seq![
            EscalationStep { signal: ShutdownSignal::Interrupt, pause_secs: timeout_secs },
        ] + tail
    } else {
        tail
    }
}

/// Compute the escalation sequence for one original request.
pub fn escalation_steps(original: SignalKind, timeout_secs: u32) -> (steps: Vec<EscalationStep>)
    ensures
        steps@ == escalation_plan(original, timeout_secs),
{
    let mut steps: Vec<EscalationStep> = Vec::new();
    if matches!(original, SignalKind::Interrupt) {
        steps.push(EscalationStep { signal: ShutdownSignal::Interrupt, pause_secs: timeout_secs });
    }
    steps.push(EscalationStep { signal: ShutdownSignal::Terminate, pause_secs: timeout_secs });
    steps.push(EscalationStep { signal: ShutdownSignal::Kill, pause_secs: 0 });
    proof {
        assert(steps@ =~= escalation_plan(original, timeout_secs));
    }
    steps
}

/// Pause for the full `secs` seconds, resuming the pause on its unslept
/// remainder whenever a signal delivery cuts one sleep short (the same
/// retry `std::thread::sleep` documents performing). The verifier's
/// termination check is met by a retry budget no real run can exhaust.
fn pause_full(secs: u32) {
    let mut left: u32 = secs;
    let mut retries_left: u64 = u64::MAX;
    while left > 0 && retries_left > 0
        decreases retries_left,
    {
        retries_left -= 1;
        left = sleep_once(left);
    }
}

/// Run the one-shot shutdown escalation against the workload: walk the plan
/// for the original request, sending each signal to `child_pid` and pausing
/// the configured timeout between steps. Every send is best effort: a
/// failure (for instance, the workload already exited) is reported when
/// logging is enabled and never aborts the sequence — detecting the exit is
/// the reaping loop's job, not this one's. Returns the plan that was walked.
pub fn run_escalation(settings: Pid1Settings, original: SignalKind, child_pid: i32) -> (performed:
    Vec<EscalationStep>)
    ensures
        performed@ == escalation_plan(original, settings.spec_timeout()),
{
    let steps = escalation_steps(original, settings.timeout_secs());
    let mut i: usize = 0;
    while i < steps.len()
        decreases steps.len() - i,
    {
        let ok = send_signal(child_pid, steps[i].signal);
        if !ok && settings.log_enabled() {
            log_send_failed(child_pid);
        }
        if steps[i].pause_secs > 0 {
            pause_full(steps[i].pause_secs);
        }
        i += 1;
    }
    steps
}

} // verus!
