//! Decision logic of the supervision loop.
//!
//! The reaping loop consumes an ordered sequence of signal notifications and
//! child-wait reports. Everything it decides — when to start the shutdown
//! escalation, which reaped process ends the supervisor, and with which exit
//! code — is a pure function of the values received, stated here and proved
//! exact. The loop itself, which feeds these functions from the OS, lives in
//! the supervisor module.

use vstd::prelude::*;

verus! {

/// A signal kind the supervisor has installed interest in.
///
/// Multiple pending occurrences of the same kind may be coalesced by the OS
/// into one notification, so a `ChildExited` notification means "at least one
/// child may have exited", never "exactly one".
#[derive(Debug, Clone, Copy, PartialEq, Eq, Structural)]
pub enum SignalKind {
    /// A termination request (SIGTERM).
    Terminate,
    /// An interactive interrupt request (SIGINT).
    Interrupt,
    /// A child's status changed (SIGCHLD).
    ChildExited,
}

/// The two-state latch that makes the shutdown escalation one-shot: however
/// many termination requests arrive, only the transition out of
/// `NotTriggered` starts an escalation.
#[derive(Debug, Clone, Copy, PartialEq, Eq, Structural)]
pub enum ShutdownLatch {
    /// No termination request has been seen yet.
    NotTriggered,
    /// An escalation has been started; further requests are ignored.
    Triggered,
}

/// What the supervision loop does in response to one received signal.
#[derive(Debug, Clone, Copy, PartialEq, Eq, Structural)]
pub enum SignalAction {
    /// Start the one-shot shutdown escalation, forwarding the original
    /// request kind so an interrupt is relayed as an interrupt first.
    StartEscalation(SignalKind),
    /// Reap exited children until none remain ready.
    DrainZombies,
    /// Nothing to do; keep waiting for signals.
    Continue,
}

/// The latch transition and action for one received signal: a child-exit
/// notification always drains zombies; a termination or interrupt request
/// triggers the escalation exactly when the latch is still `NotTriggered`
/// and is ignored otherwise.
pub open spec fn signal_step(latch: ShutdownLatch, kind: SignalKind) -> (ShutdownLatch, SignalAction) {
    match kind {
        SignalKind::ChildExited => (latch, SignalAction::DrainZombies),
        _ => match latch {
            ShutdownLatch::NotTriggered => (
                ShutdownLatch::Triggered,
                SignalAction::StartEscalation(kind),
            ),
            ShutdownLatch::Triggered => (ShutdownLatch::Triggered, SignalAction::Continue),
        },
    }
}

/// Decide the latch transition and action for one received signal.
pub fn handle_signal(latch: ShutdownLatch, kind: SignalKind) -> (r: (ShutdownLatch, SignalAction))
    ensures
        r == signal_step(latch, kind),
{
    match kind {
        SignalKind::ChildExited => (latch, SignalAction::DrainZombies),
        _ => match latch {
            ShutdownLatch::NotTriggered => (
                ShutdownLatch::Triggered,
                SignalAction::StartEscalation(kind),
            ),
            ShutdownLatch::Triggered => (ShutdownLatch::Triggered, SignalAction::Continue),
        },
    }
}

/// One report from a non-blocking "wait for any exited child" operation.
#[derive(Debug, Clone, Copy, PartialEq, Eq, Structural)]
pub enum WaitEvent {
    /// A child exited normally with the given exit code.
    Exited { pid: i32, code: i32 },
    /// A child was killed by the given signal number.
    Signaled { pid: i32, signal: i32 },
    /// A state change that is not an exit (stopped, continued, trace event);
    /// ignored, and draining goes on.
    NoExit,
}

impl WaitEvent {
    /// What the OS guarantees of a reported wait status: reported process
    /// ids are positive, exit codes are the low 8 bits of the child's
    /// status, and signal numbers are small positive integers.
    pub open spec fn wf(self) -> bool {
        match self {
            WaitEvent::Exited { pid, code } => pid >= 1 && 0 <= code <= 255,
            WaitEvent::Signaled { pid, signal } => pid >= 1 && 1 <= signal <= 64,
            WaitEvent::NoExit => true,
        }
    }
}

/// What the supervision loop does with one reaped wait report.
#[derive(Debug, Clone, Copy, PartialEq, Eq, Structural)]
pub enum ReapDecision {
    /// The primary child is gone: terminate the whole supervisor process
    /// with this exit code.
    ExitSupervisor(i32),
    /// An orphaned descendant was reaped; report it and keep running.
    ReapedOrphan(i32),
    /// The report was not an exit; keep draining.
    NoChange,
}

/// The exit code a terminal wait report propagates: the child's own exit
/// code for a normal exit, or 128 plus the signal number for a child killed
/// by a signal (the standard shell convention).
pub open spec fn propagated_exit_code(ev: WaitEvent) -> int
    recommends
        ev is Exited || ev is Signaled,
{
    match ev {
        WaitEvent::Exited { code, .. } => code as int,
        WaitEvent::Signaled { signal, .. } => 128 + signal as int,
        _ => 0,
    }
}

/// The decision for one reaped wait report: a terminal report for the
/// primary child ends the supervisor with the propagated exit code; a
/// terminal report for any other process is an orphan reap; a report that
/// is not an exit changes nothing.
pub open spec fn reap_step(child_pid: i32, ev: WaitEvent) -> ReapDecision {
    match ev {
        WaitEvent::Exited { pid, code } => if pid == child_pid {
            ReapDecision::ExitSupervisor(code)
        } else {
            ReapDecision::ReapedOrphan(pid)
        },
        WaitEvent::Signaled { pid, signal } => if pid == child_pid {
            ReapDecision::ExitSupervisor((128 + signal as int) as i32)
        } else {
            ReapDecision::ReapedOrphan(pid)
        },
        WaitEvent::NoExit => ReapDecision::NoChange,
    }
}

/// Decide what one reaped wait report means for the supervisor.
pub fn decide_reap(child_pid: i32, ev: &WaitEvent) -> (r: ReapDecision)
    requires
        ev.wf(),
    ensures
        r == reap_step(child_pid, *ev),
{
    match *ev {
        WaitEvent::Exited { pid, code } => if pid == child_pid {
            ReapDecision::ExitSupervisor(code)
        } else {
            ReapDecision::ReapedOrphan(pid)
        },
        WaitEvent::Signaled { pid, signal } => if pid == child_pid {
            ReapDecision::ExitSupervisor(128 + signal)
        } else {
            ReapDecision::ReapedOrphan(pid)
        },
        WaitEvent::NoExit => ReapDecision::NoChange,
    }
}

/// The latch state after a sequence of received signals.
pub open spec fn latch_after(latch: ShutdownLatch, kinds: Seq<SignalKind>) -> ShutdownLatch
    decreases kinds.len(),
{
    if kinds.len() == 0 {
        latch
    } else {
        latch_after(signal_step(latch, kinds[0]).0, kinds.drop_first())
    }
}

/// How many escalations a sequence of received signals starts.
pub open spec fn escalations_started(latch: ShutdownLatch, kinds: Seq<SignalKind>) -> nat
    decreases kinds.len(),
{
    if kinds.len() == 0 {
        0
    } else {
        (if signal_step(latch, kinds[0]).1 is StartEscalation {
            1nat
        } else {
            0nat
        }) + escalations_started(signal_step(latch, kinds[0]).0, kinds.drop_first())
    }
}

/// Extending a signal history by one received signal steps the folded latch
/// once and adds that step's escalation start, if any, to the count.
pub proof fn lemma_signal_history_extend(
    latch: ShutdownLatch,
    kinds: Seq<SignalKind>,
    kind: SignalKind,
)
    ensures
        latch_after(latch, kinds.push(kind)) == signal_step(latch_after(latch, kinds), kind).0,
        escalations_started(latch, kinds.push(kind)) == escalations_started(latch, kinds) + (
        if signal_step(latch_after(latch, kinds), kind).1 is StartEscalation {
            1nat
        } else {
            0nat
        }),
    decreases kinds.len(),
{
    let kp = kinds.push(kind);
    if kinds.len() == 0 {
        let stepped = signal_step(latch, kind).0;
        assert(kp[0] == kind);
        assert(kp.drop_first() =~= Seq::<SignalKind>::empty());
        assert(latch_after(stepped, kp.drop_first()) == stepped);
        assert(escalations_started(stepped, kp.drop_first()) == 0);
        assert(latch_after(latch, kinds) == latch);
        assert(escalations_started(latch, kinds) == 0);
    } else {
        let stepped = signal_step(latch, kinds[0]).0;
        assert(kp[0] == kinds[0]);
        assert(kp.drop_first() =~= kinds.drop_first().push(kind));
        lemma_signal_history_extend(stepped, kinds.drop_first(), kind);
        assert(latch_after(latch, kp) == latch_after(stepped, kp.drop_first()));
        assert(latch_after(latch, kinds) == latch_after(stepped, kinds.drop_first()));
        assert(escalations_started(latch, kp) == (if signal_step(latch, kp[0]).1
            is StartEscalation {
            1nat
        } else {
            0nat
        }) + escalations_started(stepped, kp.drop_first()));
        assert(escalations_started(latch, kinds) == (if signal_step(latch, kinds[0]).1
            is StartEscalation {
            1nat
        } else {
            0nat
        }) + escalations_started(stepped, kinds.drop_first()));
    }
}

proof fn lemma_triggered_latch_is_final(kinds: Seq<SignalKind>)
    ensures
        escalations_started(ShutdownLatch::Triggered, kinds) == 0,
        latch_after(ShutdownLatch::Triggered, kinds) == ShutdownLatch::Triggered,
    decreases kinds.len(),
{
    if kinds.len() > 0 {
        lemma_triggered_latch_is_final(kinds.drop_first());
    }
}

/// However many termination or interrupt requests a sequence of signals
/// contains, and in whatever order they arrive, at most one escalation is
/// ever started: the trigger is idempotent.
pub proof fn lemma_escalation_started_at_most_once(kinds: Seq<SignalKind>)
    ensures
        escalations_started(ShutdownLatch::NotTriggered, kinds) <= 1,
    decreases kinds.len(),
{
    if kinds.len() > 0 {
        let step = signal_step(ShutdownLatch::NotTriggered, kinds[0]);
        if step.1 is StartEscalation {
            lemma_triggered_latch_is_final(kinds.drop_first());
        } else {
            lemma_escalation_started_at_most_once(kinds.drop_first());
        }
    }
}

/// Whether a wait report is terminal for the primary child, i.e. the one
/// report whose status the supervisor propagates.
pub open spec fn is_primary_exit(child_pid: i32, ev: WaitEvent) -> bool {
    reap_step(child_pid, ev) is ExitSupervisor
}

/// The supervisor's exit code over a sequence of reaped wait reports: the
/// propagated code of the first terminal report for the primary child, or
/// `None` if the primary child never appears (the supervisor keeps running).
pub open spec fn supervisor_exit(child_pid: i32, evs: Seq<WaitEvent>) -> Option<int>
    decreases evs.len(),
{
    if evs.len() == 0 {
        None
    } else if is_primary_exit(child_pid, evs[0]) {
        Some(propagated_exit_code(evs[0]))
    } else {
        supervisor_exit(child_pid, evs.drop_first())
    }
}

/// A workload that exits on its own with code `code` has exactly that code
/// propagated as the supervisor's decision.
pub proof fn lemma_own_exit_code_propagated(child_pid: i32, code: i32)
    requires
        0 <= code <= 255,
    ensures
        reap_step(child_pid, WaitEvent::Exited { pid: child_pid, code })
            == ReapDecision::ExitSupervisor(code),
{
}

/// A workload killed by signal `signal` has `128 + signal` propagated as the
/// supervisor's decision.
pub proof fn lemma_signal_exit_code_propagated(child_pid: i32, signal: i32)
    requires
        1 <= signal <= 64,
    ensures
        reap_step(child_pid, WaitEvent::Signaled { pid: child_pid, signal })
            == ReapDecision::ExitSupervisor((128 + signal) as i32),
{
}

/// The supervisor's exit status is the status of the workload's own first
/// terminal reap, whatever other reports surround it: the authoritative reap
/// wins any race with the escalation.
pub proof fn lemma_exit_status_is_first_primary_reap(
    child_pid: i32,
    evs: Seq<WaitEvent>,
    i: int,
)
    requires
        0 <= i < evs.len(),
        is_primary_exit(child_pid, evs[i]),
        forall|j: int| 0 <= j < i ==> !is_primary_exit(child_pid, evs[j]),
    ensures
        supervisor_exit(child_pid, evs) == Some(propagated_exit_code(evs[i])),
    decreases i,
{
    if i > 0 {
        lemma_exit_status_is_first_primary_reap(child_pid, evs.drop_first(), i - 1);
    }
}

/// Any number of orphaned descendants may be reaped while the workload is
/// still running: none of those reports terminates the supervisor.
pub proof fn lemma_orphan_reaps_never_terminate(child_pid: i32, evs: Seq<WaitEvent>)
    requires
        forall|j: int| 0 <= j < evs.len() ==> !is_primary_exit(child_pid, evs[j]),
    ensures
        supervisor_exit(child_pid, evs) is None,
    decreases evs.len(),
{
    if evs.len() > 0 {
        lemma_orphan_reaps_never_terminate(child_pid, evs.drop_first());
    }
}

} // verus!
