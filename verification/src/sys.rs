//! Trusted boundary to the operating system.
//!
//! Everything the supervisor asks of the OS — its own pid, signal interest,
//! blocking signal delivery, non-blocking child waits, signal sends, timed
//! pauses, and process exit — passes through the items in this module. Each
//! item's contract states only what the underlying call's documentation and
//! source plainly give; all decisions taken on the returned values live in
//! verified code elsewhere in the crate.

use std::io::Write;

use nix::sys::wait::waitpid;
use nix::sys::wait::WaitPidFlag;
use nix::sys::wait::WaitStatus;

use vstd::prelude::*;

use crate::escalation::ShutdownSignal;
use crate::reaper::SignalKind;
use crate::reaper::WaitEvent;

verus! {

/// `std::io::Error`, carried opaquely through the launch path's error type.
#[verifier::external_type_specification]
#[verifier::external_body]
pub struct ExIoError(std::io::Error);

/// The installed signal interest: an ordered, blocking sequence of received
/// signal kinds, held as `signal_hook`'s blocking signal iterator. The type
/// is opaque because the iterator's generic signal-extraction bound cannot
/// be declared to the verifier. The raw OS handler only records that a
/// signal of a kind occurred (occurrences of one kind may coalesce); all
/// interpretation happens in ordinary code consuming
/// [`SignalMux::next_blocking`].
#[verifier::external_body]
pub struct SignalMux {
    signals: signal_hook::iterator::Signals,
}

impl SignalMux {
    /// Install interest in the given signal kinds, before the workload is
    /// spawned, so that no early child exit can be missed.
    ///
    /// Relies on `signal_hook::iterator::Signals::new`: registers process-wide
    /// handlers for exactly the listed signals and fails only if the OS
    /// refuses the registration.
    #[verifier::external_body]
    pub fn install(kinds: &Vec<SignalKind>) -> (r: Result<SignalMux, std::io::Error>) {
        let raw: Vec<i32> = kinds
            .iter()
            .map(|k| match k {
                SignalKind::Terminate => signal_hook::consts::SIGTERM,
                SignalKind::Interrupt => signal_hook::consts::SIGINT,
                SignalKind::ChildExited => signal_hook::consts::SIGCHLD,
            })
            .collect();
        signal_hook::iterator::Signals::new(raw).map(|signals| SignalMux { signals })
    }

    /// Block until a signal of an installed kind has occurred and report its
    /// kind. Which kind arrives, and when, is the OS's choice: nothing more
    /// is promised, and the supervision loop handles every kind.
    ///
    /// Relies on `Signals::forever`: blocks until a registered signal
    /// arrives and yields its number; only registered signals are yielded,
    /// and the iterator ends only if explicitly closed, which this crate
    /// never does.
    #[verifier::external_body]
    pub fn next_blocking(&mut self) -> (k: SignalKind) {
        match self.signals.forever().next() {
            Some(s) if s == signal_hook::consts::SIGINT => SignalKind::Interrupt,
            Some(s) if s == signal_hook::consts::SIGTERM => SignalKind::Terminate,
            _ => SignalKind::ChildExited,
        }
    }
}

/// The numeric process id of the calling process.
///
/// Relies on `nix::unistd::getpid`: always succeeds, and process ids are
/// positive.
#[verifier::external_body]
pub(crate) fn current_pid() -> (pid: i32)
    ensures
        pid >= 1,
{
    nix::unistd::getpid().as_raw()
}

/// One non-blocking "wait for any exited child" operation: the next ready
/// child-status report, or `None` when no further report is ready (no child
/// is waitable right now, or no children remain).
///
/// Relies on `nix::sys::wait::waitpid` with `WNOHANG`: a ready report
/// carries the child's positive pid; a normal exit code is the low 8 bits
/// of the child's status; a killing signal's number is a small positive
/// integer (`nix`'s `Signal` enum covers the standard signals only); a
/// status change that is not an exit (stopped, continued, trace events) is
/// reported as such. A child killed by a signal outside `nix`'s enum is
/// reaped by the OS but its status cannot be decoded by `nix`; that report
/// too comes back as not-an-exit, so draining goes on.
#[verifier::external_body]
pub(crate) fn wait_nohang() -> (r: Option<WaitEvent>)
    ensures
        r matches Some(ev) ==> ev.wf(),
{
    match waitpid(None::<nix::unistd::Pid>, Some(WaitPidFlag::WNOHANG)) {
        Ok(WaitStatus::Exited(pid, code)) => Some(WaitEvent::Exited { pid: pid.as_raw(), code }),
        Ok(WaitStatus::Signaled(pid, signal, _)) => Some(WaitEvent::Signaled {
            pid: pid.as_raw(),
            signal: signal as i32,
        }),
        Ok(WaitStatus::StillAlive) => None,
        Ok(_) => Some(WaitEvent::NoExit),
        Err(nix::errno::Errno::ECHILD) => None,
        Err(_) => Some(WaitEvent::NoExit),
    }
}

/// Send one shutdown signal to the given process, best effort: reports
/// whether the send was accepted, and nothing of the target's fate.
///
/// Relies on `nix::sys::signal::kill`: sends the given signal to the given
/// pid and returns an error if the target is gone or not signalable.
#[verifier::external_body]
pub(crate) fn send_signal(pid: i32, signal: ShutdownSignal) -> (ok: bool) {
    let s = match signal {
        ShutdownSignal::Interrupt => nix::sys::signal::Signal::SIGINT,
        ShutdownSignal::Terminate => nix::sys::signal::Signal::SIGTERM,
        ShutdownSignal::Kill => nix::sys::signal::Signal::SIGKILL,
    };
    nix::sys::signal::kill(nix::unistd::Pid::from_raw(pid), Some(s)).is_ok()
}

/// Pause for up to the given number of seconds, reporting how many were
/// left unslept.
///
/// Relies on `nix::unistd::sleep`: suspends the calling thread for the
/// given seconds and returns zero, or returns early with the unslept
/// remainder — never more than was asked for — when a signal delivery
/// interrupts it.
#[verifier::external_body]
pub(crate) fn sleep_once(secs: u32) -> (remaining: u32)
    ensures
        remaining <= secs,
{
    nix::unistd::sleep(secs)
}

/// Terminate the whole process with the given exit status. Does not return.
///
/// Relies on `signal_hook::low_level::exit`: a bare exit that ends the
/// process immediately with the given status.
#[verifier::external_body]
pub(crate) fn exit_process(code: i32) {
    signal_hook::low_level::exit(code);
}

/// Diagnostic line: the supervisor has assumed the PID-1 role.
///
/// Relies on `writeln` to `std::io::stderr`.
#[verifier::external_body]
pub(crate) fn log_pid1_role() {
    let _ = writeln!(std::io::stderr(), "pid1-rs: Process running as PID 1");
}

/// Diagnostic line: not running as PID 1, so nothing was supervised.
///
/// Relies on `writeln` to `std::io::stderr`.
#[verifier::external_body]
pub(crate) fn log_subordinate_role(pid: i32) {
    let _ = writeln!(std::io::stderr(), "pid1-rs: Process not running as Pid 1: PID {pid}");
}

/// Diagnostic line: an orphaned descendant was reaped.
///
/// Relies on `writeln` to `std::io::stderr`.
#[verifier::external_body]
pub(crate) fn log_reaped(pid: i32) {
    let _ = writeln!(std::io::stderr(), "pid1-rs: Reaped PID {pid}");
}

/// Diagnostic line: a best-effort shutdown signal could not be delivered.
///
/// Relies on `writeln` to `std::io::stderr`.
#[verifier::external_body]
pub(crate) fn log_send_failed(pid: i32) {
    let _ = writeln!(std::io::stderr(), "pid1-rs: Failed to send signal to PID {pid}");
}

} // verus!
