//! The launch path outside the PID-1 role.

use std::cell::Cell;

use pid1::relaunch_if_pid1;
use pid1::Pid1Settings;
use pid1::SignalKind;
use pid1::SignalMux;

/// True when this test process happens to be PID 1 (some harnesses run
/// each test in its own process namespace); the subordinate branch cannot
/// be exercised there, since the supervising branch never returns.
fn running_as_pid1() -> bool {
    nix::unistd::getpid().as_raw() == 1
}

#[test]
fn not_pid1_returns_success_without_spawning() {
    if running_as_pid1() {
        return;
    }
    // This process is not PID 1, so the call must return success
    // immediately, spawn no child and start no escalation.
    let spawned = Cell::new(false);
    let escalated = Cell::new(false);
    let result = relaunch_if_pid1(
        Pid1Settings::new(),
        || {
            spawned.set(true);
            Ok(0)
        },
        |_settings, _kind, _child| {
            escalated.set(true);
        },
    );
    assert!(result.is_ok());
    assert!(!spawned.get());
    assert!(!escalated.get());
}

#[test]
fn launch_method_behaves_like_free_function() {
    if running_as_pid1() {
        return;
    }
    let spawned = Cell::new(false);
    let result = Pid1Settings::new().enable_log(false).launch(
        || {
            spawned.set(true);
            Ok(0)
        },
        |_settings, _kind, _child| {},
    );
    assert!(result.is_ok());
    assert!(!spawned.get());
}

#[test]
fn spawn_failure_is_returned_to_the_caller() {
    // Only the PID-1 branch ever spawns, so decide the launch path on pid 1
    // explicitly; the spawn failure must come back as the caller's error.
    let result = Pid1Settings::new().launch_with_pid(
        1,
        || {
            Err(pid1::Error::SpawnChild(std::io::Error::new(
                std::io::ErrorKind::NotFound,
                "no such program",
            )))
        },
        |_settings, _kind, _child| {},
    );
    assert!(matches!(result, Err(pid1::Error::SpawnChild(_))));
}

#[test]
fn subordinate_branch_returns_success_without_spawning() {
    // The launch path decided on any pid other than 1 must return success
    // immediately, spawn no child and start no escalation — this holds
    // whatever pid the test process itself has.
    let spawned = Cell::new(false);
    let escalated = Cell::new(false);
    let result = Pid1Settings::new().launch_with_pid(
        4242,
        || {
            spawned.set(true);
            Ok(0)
        },
        |_settings, _kind, _child| {
            escalated.set(true);
        },
    );
    assert!(result.is_ok());
    assert!(!spawned.get());
    assert!(!escalated.get());
}

#[test]
fn supervisor_intercepts_exactly_three_kinds() {
    let kinds = pid1::signal_kinds();
    assert_eq!(
        kinds,
        vec![SignalKind::Terminate, SignalKind::Interrupt, SignalKind::ChildExited]
    );
}

#[test]
fn signal_interest_can_be_installed() {
    let mux = SignalMux::install(&pid1::signal_kinds());
    assert!(mux.is_ok());
}

#[test]
fn pid1_role_applies_to_pid_one_only() {
    assert!(pid1::assumes_pid1_role(1));
    assert!(!pid1::assumes_pid1_role(2));
    assert!(!pid1::assumes_pid1_role(4242));
}

#[test]
fn error_messages_name_the_failure() {
    let err = pid1::Error::SpawnChild(std::io::Error::new(
        std::io::ErrorKind::NotFound,
        "no such program",
    ));
    assert_eq!(err.message(), "Failed when respawning non-PID1 child process");
    let err = pid1::Error::InstallSignals(std::io::Error::new(
        std::io::ErrorKind::Other,
        "refused",
    ));
    assert_eq!(err.message(), "Failed to install signal handlers before spawning");
}
