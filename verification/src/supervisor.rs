//! The supervision loop and the PID-1 launch path.
//!
//! The launch path decides whether the PID-1 role applies. If it does not,
//! control returns to the caller at once and the caller runs its real
//! workload in the current process. If it does, signal interest is
//! installed first (installing after the spawn could lose the child-exit
//! notification of a child that exits instantly, leaving a zombie the
//! supervisor would wait on forever), the workload is spawned as the
//! primary child, and the supervision loop takes over: from then on the
//! process communicates only through its exit status.
//!
//! What this crate cannot do itself it takes as arguments: spawning the
//! workload and starting the escalation task on its own thread are the
//! caller's, performed through the two closures the launch path receives.

use vstd::prelude::*;

use crate::reaper::decide_reap;
use crate::reaper::escalations_started;
use crate::reaper::handle_signal;
use crate::reaper::latch_after;
use crate::reaper::lemma_signal_history_extend;
use crate::reaper::ReapDecision;
use crate::reaper::ShutdownLatch;
use crate::reaper::SignalAction;
use crate::reaper::SignalKind;
use crate::settings::Error;
use crate::settings::Pid1Settings;
use crate::sys::current_pid;
use crate::sys::exit_process;
use crate::sys::log_pid1_role;
use crate::sys::log_reaped;
use crate::sys::log_subordinate_role;
use crate::sys::wait_nohang;
use crate::sys::SignalMux;

verus! {

/// Whether a process with the given id carries the PID-1 init role: the
/// role applies exactly to process id 1, and to no other.
pub fn assumes_pid1_role(pid: i32) -> (b: bool)
    ensures
        b == (pid == 1),
{
    pid == 1
}

/// The signal kinds the supervisor installs interest in: termination and
/// interrupt requests and child exits, exactly these and no others; all
/// other signals keep their default disposition.
pub fn signal_kinds() -> (kinds: Vec<SignalKind>)
    ensures
        kinds@ =~= seq![SignalKind::Terminate, SignalKind::Interrupt, SignalKind::ChildExited],
{
    let kinds = vec![SignalKind::Terminate, SignalKind::Interrupt, SignalKind::ChildExited];
    kinds
}

/// Reap every child that is ready right now, one non-blocking wait at a
/// time until none remains, and act on each report in order: the primary
/// child's own terminal report ends the whole process with the propagated
/// exit code (once the one workload this supervisor exists to protect is
/// gone, its job is done); an orphan's report is logged when logging is
/// enabled; a report that is not an exit is ignored and draining goes on.
/// The verifier's termination check is met by a round budget no real run
/// can exhaust (each round reaps or ends the drain).
fn drain_zombies(settings: &Pid1Settings, child_pid: i32) {
    let mut rounds_left: u64 = u64::MAX;
    while rounds_left > 0
        decreases rounds_left,
    {
        rounds_left -= 1;
        let ev = match wait_nohang() {
            Some(ev) => ev,
            None => break,
        };
        match decide_reap(child_pid, &ev) {
            ReapDecision::ExitSupervisor(code) => exit_process(code),
            ReapDecision::ReapedOrphan(pid) => {
                if settings.log_enabled() {
                    log_reaped(pid);
                }
            },
            ReapDecision::NoChange => {},
        }
    }
}

impl Pid1Settings {
    /// Do proper reaping and signal handling as PID 1: block on the
    /// installed signal interest and service one signal per round. A
    /// termination or interrupt request starts the one-shot escalation by
    /// handing `start_escalation` the original request kind and the primary
    /// child's pid — once only, however many requests arrive; servicing
    /// goes on so the eventual child exit is still reaped. A child-exit
    /// notification drains every ready zombie.
    ///
    /// This function does not return in practice: its only way out is the
    /// process exit taken when the primary child's own reap arrives. The
    /// verifier's termination check is met by a round budget no real run
    /// can exhaust (one round per received signal).
    ///
    /// The loop carries the history of received signal kinds as a ghost
    /// sequence, and its invariant ties the latch to the fold of
    /// [`crate::signal_step`] over that history: however the OS orders and
    /// coalesces its deliveries, the escalation is started on the one
    /// transition that sets the latch, and never again.
    pub fn pid1_handling<FEsc: Fn(Pid1Settings, SignalKind, i32)>(
        self,
        mux: SignalMux,
        child_pid: i32,
        start_escalation: FEsc,
    )
        requires
            forall|args: (Pid1Settings, SignalKind, i32)|
                call_requires(start_escalation, args),
    {
        let mut mux = mux;
        let mut latch = ShutdownLatch::NotTriggered;
        let ghost mut received: Seq<SignalKind> = Seq::empty();
        let mut rounds_left: u64 = u64::MAX;
        while rounds_left > 0
            invariant
                forall|args: (Pid1Settings, SignalKind, i32)|
                    call_requires(start_escalation, args),
                latch == latch_after(ShutdownLatch::NotTriggered, received),
                escalations_started(ShutdownLatch::NotTriggered, received) == (
                if latch is Triggered {
                    1nat
                } else {
                    0nat
                }),
            decreases rounds_left,
        {
            rounds_left -= 1;
            let kind = mux.next_blocking();
            proof {
                lemma_signal_history_extend(ShutdownLatch::NotTriggered, received, kind);
                received = received.push(kind);
            }
            let (new_latch, action) = handle_signal(latch, kind);
            latch = new_latch;
            match action {
                SignalAction::StartEscalation(original) => {
                    // The one transition out of NotTriggered: the first
                    // escalation this run of the supervisor ever starts.
                    assert(escalations_started(ShutdownLatch::NotTriggered, received) == 1);
                    start_escalation(self, original, child_pid);
                },
                SignalAction::DrainZombies => drain_zombies(&self, child_pid),
                SignalAction::Continue => {},
            }
        }
    }

    /// The launch path, decided on an explicitly given process id: the one
    /// place where the role decision's consequences are stated in full.
    ///
    /// When `pid` is not 1, this returns success at once with nothing
    /// installed and nothing spawned — the contract owes `Ok` on that
    /// branch — and the caller runs its real workload in the current
    /// process. When `pid` is 1: signal interest in exactly the kinds of
    /// [`signal_kinds`] is installed first, then the workload is spawned
    /// through `spawn_child` (which reports the new child's pid), and
    /// [`Pid1Settings::pid1_handling`] takes over, which does not return in
    /// practice. An error can therefore only come from the PID-1 branch,
    /// and is either a failed signal installation or exactly what
    /// `spawn_child` reported; the spawn is attempted at most once.
    ///
    /// [`Pid1Settings::launch`] calls this with the calling process's own
    /// id; callers of this function must do the same.
    pub fn launch_with_pid<FSpawn, FEsc>(
        self,
        pid: i32,
        spawn_child: FSpawn,
        start_escalation: FEsc,
    ) -> (r: Result<(), Error>) where
        FSpawn: FnOnce() -> Result<i32, Error>,
        FEsc: Fn(Pid1Settings, SignalKind, i32),

        requires
            call_requires(spawn_child, ()),
            forall|args: (Pid1Settings, SignalKind, i32)|
                call_requires(start_escalation, args),
        ensures
            pid != 1 ==> r is Ok,
            r matches Err(e) ==> pid == 1 && (e is InstallSignals || call_ensures(
                spawn_child,
                (),
                Err(e),
            )),
    {
        if assumes_pid1_role(pid) {
            let kinds = signal_kinds();
            let mux = match SignalMux::install(&kinds) {
                Ok(mux) => mux,
                Err(e) => return Err(Error::InstallSignals(e)),
            };
            let child_pid = match spawn_child() {
                Ok(child_pid) => child_pid,
                Err(e) => return Err(e),
            };
            if self.log_enabled() {
                log_pid1_role();
            }
            self.pid1_handling(mux, child_pid, start_escalation);
            Ok(())
        } else {
            if self.log_enabled() {
                log_subordinate_role(pid);
            }
            Ok(())
        }
    }

    /// When run as PID 1, install signal interest, relaunch the workload as
    /// the primary child through `spawn_child`, and hand off to
    /// [`Pid1Settings::pid1_handling`], which does not return in practice.
    /// When not PID 1, return success at once with nothing installed and
    /// nothing spawned: the caller then runs its real workload in the
    /// current process.
    ///
    /// This reads the calling process's id and hands everything to
    /// [`Pid1Settings::launch_with_pid`], whose contract states both
    /// branches in full; the pid being read inside, only the error shape
    /// can be stated here.
    pub fn launch<FSpawn, FEsc>(self, spawn_child: FSpawn, start_escalation: FEsc) -> (r: Result<
        (),
        Error,
    >) where
        FSpawn: FnOnce() -> Result<i32, Error>,
        FEsc: Fn(Pid1Settings, SignalKind, i32),

        requires
            call_requires(spawn_child, ()),
            forall|args: (Pid1Settings, SignalKind, i32)|
                call_requires(start_escalation, args),
        ensures
            r matches Err(e) ==> (e is InstallSignals || call_ensures(
                spawn_child,
                (),
                Err(e),
            )),
    {
        let pid = current_pid();
        self.launch_with_pid(pid, spawn_child, start_escalation)
    }
}

/// When run as PID 1, relaunch the current process as a child process and
/// do proper signal and zombie reaping in PID 1; when not, return success
/// immediately so the caller proceeds to run its real workload in the
/// current process. This should be the first action of a program's `main`.
///
/// See [`Pid1Settings::launch`] for the two closures and the error cases,
/// and [`Pid1Settings::launch_with_pid`] for the full contract of both
/// branches of the role decision.
pub fn relaunch_if_pid1<FSpawn, FEsc>(
    settings: Pid1Settings,
    spawn_child: FSpawn,
    start_escalation: FEsc,
) -> (r: Result<(), Error>) where
    FSpawn: FnOnce() -> Result<i32, Error>,
    FEsc: Fn(Pid1Settings, SignalKind, i32),

    requires
        call_requires(spawn_child, ()),
        forall|args: (Pid1Settings, SignalKind, i32)|
            call_requires(start_escalation, args),
    ensures
        r matches Err(e) ==> (e is InstallSignals || call_ensures(spawn_child, (), Err(e))),
{
    settings.launch(spawn_child, start_escalation)
}

} // verus!
