//! Run an arbitrary program safely as process id 1.
//!
//! When a process finds itself as PID 1 (the init role, common inside
//! containers), it inherits duties an ordinary program does not expect:
//! reaping orphaned descendants, forwarding termination requests to the
//! real workload, and propagating the workload's exit status. This crate
//! supervises exactly one primary child: it decides whether the PID-1 role
//! applies, installs signal interest, re-launches the workload as a child,
//! reaps zombies, and escalates a graceful shutdown when asked to stop.

mod escalation;
mod kv;
mod reaper;
mod settings;
mod supervisor;
mod sys;

pub use escalation::escalation_plan;
pub use escalation::escalation_steps;
pub use escalation::run_escalation;
pub use escalation::EscalationStep;
pub use escalation::ShutdownSignal;
pub use kv::parse_key_val;
pub use reaper::ReapDecision;
pub use reaper::ShutdownLatch;
pub use reaper::SignalAction;
pub use reaper::SignalKind;
pub use reaper::WaitEvent;
pub use reaper::decide_reap;
pub use reaper::escalations_started;
pub use reaper::handle_signal;
pub use reaper::is_primary_exit;
pub use reaper::latch_after;
pub use reaper::lemma_escalation_started_at_most_once;
pub use reaper::lemma_exit_status_is_first_primary_reap;
pub use reaper::lemma_orphan_reaps_never_terminate;
pub use reaper::lemma_own_exit_code_propagated;
pub use reaper::lemma_signal_exit_code_propagated;
pub use reaper::lemma_signal_history_extend;
pub use reaper::propagated_exit_code;
pub use reaper::reap_step;
pub use reaper::signal_step;
pub use reaper::supervisor_exit;
pub use settings::Builder;
pub use settings::Error;
pub use settings::Pid1Settings;
pub use supervisor::assumes_pid1_role;
pub use supervisor::relaunch_if_pid1;
pub use supervisor::signal_kinds;
pub use sys::SignalMux;
